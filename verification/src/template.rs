//! The placeholder template engine.
//!
//! A template is literal text interleaved with positional references
//! `{N}`, where `N` is a 1-based decimal index into an ordered row of
//! column values. Resolution substitutes each reference with the value it
//! names and passes everything else through verbatim.

use vstd::prelude::*;

use crate::errors::TemplateError;
use crate::text::{digit_char_val, digit_value, is_digit, is_digit_char, push_char};

verus! {

/// The length of the run of decimal digits in `t` that starts at `i`.
pub open spec fn digits_run_len(t: Seq<char>, i: int) -> nat
    decreases t.len() - i,
{
    if 0 <= i < t.len() && is_digit_char(t[i]) {
        (1 + digits_run_len(t, i + 1)) as nat
    } else {
        0
    }
}

/// The value of a sequence of decimal digit characters, most significant
/// digit first.
pub open spec fn digits_val(s: Seq<char>) -> nat
    decreases s.len(),
{
    if s.len() == 0 {
        0
    } else {
        digits_val(s.drop_last()) * 10 + digit_char_val(s.last())
    }
}

/// Resolution of the template `t` against `row`, from position `i` on.
///
/// A `{` must open a reference `{N}`: digits immediately followed by `}`,
/// with `N >= 1`, or the template is malformed. A reference past the end
/// of the row is an out-of-range error. Every other character stands for
/// itself.
pub open spec fn spec_resolve_from(t: Seq<char>, row: Seq<Seq<char>>, i: int) -> Result<
    Seq<char>,
    TemplateError,
>
    decreases t.len() - i,
{
    if i < 0 || i >= t.len() {
        Ok(Seq::empty())
    } else if t[i] != '{' {
        match spec_resolve_from(t, row, i + 1) {
            Ok(rest) => Ok(seq![t[i]] + rest),
            Err(e) => Err(e),
        }
    } else {
        let k = digits_run_len(t, i + 1) as int;
        if k == 0 {
            Err(TemplateError::MalformedTemplate)
        } else if i + 1 + k >= t.len() || t[i + 1 + k] != '}' {
            Err(TemplateError::MalformedTemplate)
        } else {
            let n = digits_val(t.subrange(i + 1, i + 1 + k));
            if n == 0 {
                Err(TemplateError::MalformedTemplate)
            } else if n > row.len() {
                Err(TemplateError::ColumnIndexOutOfRange)
            } else {
                match spec_resolve_from(t, row, i + 2 + k) {
                    Ok(rest) => Ok(row[n - 1] + rest),
                    Err(e) => Err(e),
                }
            }
        }
    }
}

/// Full resolution of the template `t` against the row `row`.
pub open spec fn spec_resolve(t: Seq<char>, row: Seq<Seq<char>>) -> Result<
    Seq<char>,
    TemplateError,
> {
    spec_resolve_from(t, row, 0)
}

/// What resolving from position `i` still owes once `prefix` has been
/// produced: together they settle the full resolution.
pub open spec fn resolves_with_prefix(
    t: Seq<char>,
    row: Seq<Seq<char>>,
    prefix: Seq<char>,
    i: int,
) -> bool {
    match spec_resolve_from(t, row, i) {
        Ok(rest) => spec_resolve(t, row) == Ok::<Seq<char>, TemplateError>(prefix + rest),
        Err(e) => spec_resolve(t, row) == Err::<Seq<char>, TemplateError>(e),
    }
}

proof fn lemma_digits_run_len(t: Seq<char>, p: int, q: int)
    requires
        0 <= p <= q <= t.len(),
        forall|x: int| p <= x < q ==> is_digit_char(t[x]),
        q == t.len() || !is_digit_char(t[q]),
    ensures
        digits_run_len(t, p) == q - p,
    decreases q - p,
{
    if p < q {
        lemma_digits_run_len(t, p + 1, q);
    }
}

/// Resolves `template` against the ordered column values `row`.
///
/// Returns the fully substituted string, or the first error in template
/// order: `MalformedTemplate` for a `{` that does not open a well-formed
/// positive reference, `ColumnIndexOutOfRange` for a reference past the
/// end of `row`.
pub fn resolve(template: &str, row: &Vec<String>) -> (r: Result<String, TemplateError>)
    ensures
        match r {
            Ok(s) => spec_resolve(template@, row.deep_view()) == Ok::<Seq<char>, TemplateError>(
                s@,
            ),
            Err(e) => spec_resolve(template@, row.deep_view()) == Err::<Seq<char>, TemplateError>(
                e,
            ),
        },
{
    let ghost t = template@;
    let ghost rowm = row.deep_view();
    let n = template.unicode_len();
    let mut out = String::new();
    let mut i: usize = 0;
    proof {
        assert(rowm.len() == row@.len());
        assert(spec_resolve_from(t, rowm, 0) == spec_resolve(t, rowm));
        if spec_resolve_from(t, rowm, 0) is Ok {
            assert(Seq::<char>::empty() + spec_resolve_from(t, rowm, 0)->Ok_0 =~= spec_resolve_from(
                t,
                rowm,
                0,
            )->Ok_0);
        }
    }
    while i < n
        invariant
            i <= n,
            n == t.len(),
            t == template@,
            rowm == row.deep_view(),
            rowm.len() == row@.len(),
            resolves_with_prefix(t, rowm, out@, i as int),
        decreases n - i,
    {
        let c = template.get_char(i);
        let ghost out0 = out@;
        if c != '{' {
            push_char(&mut out, c);
            proof {
                if spec_resolve_from(t, rowm, i + 1) is Ok {
                    let rest = spec_resolve_from(t, rowm, i + 1)->Ok_0;
                    assert(spec_resolve_from(t, rowm, i as int) == Ok::<Seq<char>, TemplateError>(
                        seq![t[i as int]] + rest,
                    ));
                    assert(out@ + rest =~= out0 + (seq![t[i as int]] + rest));
                }
            }
            i += 1;
        } else {
            // Scan the digit run that must follow the `{`.
            let mut j = i + 1;
            let mut acc: Option<usize> = Some(0);
            proof {
                assert(t.subrange(i + 1, i + 1) =~= Seq::<char>::empty());
            }
            loop
                invariant_except_break
                    i + 1 <= j <= n,
                    n == t.len(),
                    t == template@,
                    forall|x: int| i + 1 <= x < j ==> is_digit_char(t[x]),
                    match acc {
                        Some(a) => a as nat == digits_val(t.subrange(i + 1, j as int)),
                        None => digits_val(t.subrange(i + 1, j as int)) > usize::MAX,
                    },
                ensures
                    i + 1 <= j <= n,
                    forall|x: int| i + 1 <= x < j ==> is_digit_char(t[x]),
                    j == n || !is_digit_char(t[j as int]),
                    match acc {
                        Some(a) => a as nat == digits_val(t.subrange(i + 1, j as int)),
                        None => digits_val(t.subrange(i + 1, j as int)) > usize::MAX,
                    },
                decreases n - j,
            {
                if j >= n {
                    break ;
                }
                let cj = template.get_char(j);
                if !is_digit(cj) {
                    break ;
                }
                let d = digit_value(cj);
                proof {
                    assert(t.subrange(i + 1, j + 1).drop_last() =~= t.subrange(i + 1, j as int));
                    assert(t.subrange(i + 1, j + 1).last() == t[j as int]);
                }
                acc = match acc {
                    Some(a) => match a.checked_mul(10) {
                        Some(m) => m.checked_add(d),
                        None => None,
                    },
                    None => None,
                };
                proof {
                    let prev = digits_val(t.subrange(i + 1, j as int));
                    assert(digits_val(t.subrange(i + 1, j + 1)) == prev * 10 + digit_char_val(
                        t[j as int],
                    ));
                    if prev > usize::MAX {
                        assert(prev * 10 >= prev) by (nonlinear_arith)
                            requires
                                prev >= 0,
                        ;
                    }
                }
                j += 1;
            }
            let k = j - (i + 1);
            proof {
                lemma_digits_run_len(t, i + 1, j as int);
                assert(digits_run_len(t, i + 1) == k);
            }
            if k == 0 {
                assert(spec_resolve_from(t, rowm, i as int) == Err::<Seq<char>, TemplateError>(
                    TemplateError::MalformedTemplate,
                ));
                return Err(TemplateError::MalformedTemplate);
            }
            if j >= n {
                return Err(TemplateError::MalformedTemplate);
            }
            let close = template.get_char(j);
            if close != '}' {
                return Err(TemplateError::MalformedTemplate);
            }
            let row_len = row.len();
            let idx = match acc {
                Some(a) => a,
                None => {
                    // The reference value exceeds the machine word, so it
                    // certainly exceeds the row length.
                    proof {
                        assert(rowm.len() == row_len as nat);
                    }
                    return Err(TemplateError::ColumnIndexOutOfRange);
                },
            };
            if idx == 0 {
                return Err(TemplateError::MalformedTemplate);
            }
            if idx > row_len {
                return Err(TemplateError::ColumnIndexOutOfRange);
            }
            let value = &row[idx - 1];
            out.append(value.as_str());
            proof {
                assert(rowm[idx - 1] == row@[idx - 1]@);
                if spec_resolve_from(t, rowm, j + 1) is Ok {
                    let rest = spec_resolve_from(t, rowm, j + 1)->Ok_0;
                    assert(spec_resolve_from(t, rowm, i as int) == Ok::<Seq<char>, TemplateError>(
                        rowm[idx - 1] + rest,
                    ));
                    assert(out@ + rest =~= out0 + (rowm[idx - 1] + rest));
                }
            }
            i = j + 1;
        }
    }
    proof {
        assert(spec_resolve_from(t, rowm, n as int) == Ok::<Seq<char>, TemplateError>(
            Seq::empty(),
        ));
        assert(out@ + Seq::<char>::empty() =~= out@);
    }
    Ok(out)
}

} // verus!
