//! Materialization of the selection and count query templates.
//!
//! A query template carries a single `{id}` placeholder. Before a poll
//! the placeholder is substituted with the current cursor value; a
//! template without it is a configuration defect.

use vstd::prelude::*;

use crate::errors::ConfigValidationError;

verus! {

/// Whether the four characters `{id}` stand at position `i` of `t`.
pub open spec fn id_marker_at(t: Seq<char>, i: int) -> bool {
    &&& 0 <= i
    &&& i + 4 <= t.len()
    &&& t[i] == '{'
    &&& t[i + 1] == 'i'
    &&& t[i + 2] == 'd'
    &&& t[i + 3] == '}'
}

/// The position of the first `{id}` marker at or after `i`, if any.
pub open spec fn first_id_marker_from(t: Seq<char>, i: int) -> Option<int>
    decreases t.len() - i,
{
    if i < 0 || i + 4 > t.len() {
        None
    } else if id_marker_at(t, i) {
        Some(i)
    } else {
        first_id_marker_from(t, i + 1)
    }
}

/// The position of the first `{id}` marker of `t`, if any.
pub open spec fn spec_first_id_marker(t: Seq<char>) -> Option<int> {
    first_id_marker_from(t, 0)
}

/// Whether `t` carries an `{id}` marker at all.
pub open spec fn spec_has_id_marker(t: Seq<char>) -> bool {
    spec_first_id_marker(t) is Some
}

/// The template `t` with its first `{id}` marker replaced by `cursor`,
/// or the configuration defect when the marker is absent.
pub open spec fn spec_materialize(t: Seq<char>, cursor: Seq<char>) -> Result<
    Seq<char>,
    ConfigValidationError,
> {
    match spec_first_id_marker(t) {
        Some(i) => Ok(t.subrange(0, i) + cursor + t.subrange(i + 4, t.len() as int)),
        None => Err(ConfigValidationError::MissingIdPlaceholder),
    }
}

proof fn lemma_first_marker_is_marker(t: Seq<char>, i: int)
    requires
        first_id_marker_from(t, i) is Some,
    ensures
        id_marker_at(t, first_id_marker_from(t, i)->Some_0),
        first_id_marker_from(t, i)->Some_0 >= i,
    decreases t.len() - i,
{
    if !(i < 0 || i + 4 > t.len()) && !id_marker_at(t, i) {
        lemma_first_marker_is_marker(t, i + 1);
    }
}

/// Finds the position of the first `{id}` marker of `t`.
fn find_id_marker(t: &str) -> (r: Option<usize>)
    ensures
        match r {
            Some(i) => spec_first_id_marker(t@) == Some(i as int),
            None => spec_first_id_marker(t@) is None,
        },
{
    let n = t.unicode_len();
    if n < 4 {
        return None;
    }
    let mut i: usize = 0;
    while i <= n - 4
        invariant
            n == t@.len(),
            4 <= n,
            i <= n - 3,
            spec_first_id_marker(t@) == first_id_marker_from(t@, i as int),
        decreases n - i,
    {
        let c0 = t.get_char(i);
        if c0 == '{' {
            let c1 = t.get_char(i + 1);
            let c2 = t.get_char(i + 2);
            let c3 = t.get_char(i + 3);
            if c1 == 'i' && c2 == 'd' && c3 == '}' {
                proof {
                    assert(id_marker_at(t@, i as int));
                }
                return Some(i);
            }
        }
        proof {
            assert(!id_marker_at(t@, i as int));
        }
        i += 1;
    }
    proof {
        assert(i as int + 4 > t@.len());
    }
    None
}

/// Whether the query template `t` carries the `{id}` cursor placeholder.
pub fn has_id_marker(t: &str) -> (r: bool)
    ensures
        r == spec_has_id_marker(t@),
{
    find_id_marker(t).is_some()
}

/// Substitutes the single `{id}` placeholder of `template` with `cursor`
/// and returns the concrete query to execute this cycle. A template
/// without the placeholder is rejected as a configuration defect.
pub fn materialize(template: &str, cursor: &str) -> (r: Result<String, ConfigValidationError>)
    ensures
        match r {
            Ok(s) => spec_materialize(template@, cursor@) == Ok::<Seq<char>, ConfigValidationError>(
                s@,
            ),
            Err(e) => spec_materialize(template@, cursor@) == Err::<
                Seq<char>,
                ConfigValidationError,
            >(e) && e == ConfigValidationError::MissingIdPlaceholder,
        },
{
    match find_id_marker(template) {
        None => Err(ConfigValidationError::MissingIdPlaceholder),
        Some(i) => {
            proof {
                lemma_first_marker_is_marker(template@, 0);
            }
            let n = template.unicode_len();
            let head = template.substring_char(0, i);
            let tail = template.substring_char(i + 4, n);
            let mut out = head.to_owned();
            out.append(cursor);
            out.append(tail);
            proof {
                assert(out@ =~= template@.subrange(0, i as int) + cursor@ + template@.subrange(
                    i + 4,
                    template@.len() as int,
                ));
            }
            Ok(out)
        },
    }
}

} // verus!
