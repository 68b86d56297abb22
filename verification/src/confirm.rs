//! The answer to the confirmation prompt.

use vstd::prelude::*;
use vstd::std_specs::iter::IteratorSpec;

verus! {

/// What is shown to the user before the answer is read.
pub const PROMPT: &'static str = "Are you sure? [y/N] ";

/// Whether `c` is white space: one of the characters to which Unicode gives
/// the property `White_Space`.
pub open spec fn is_whitespace(c: char) -> bool {
    ||| '\u{9}' <= c <= '\u{d}'
    ||| c == ' '
    ||| c == '\u{85}'
    ||| c == '\u{a0}'
    ||| c == '\u{1680}'
    ||| '\u{2000}' <= c <= '\u{200a}'
    ||| c == '\u{2028}'
    ||| c == '\u{2029}'
    ||| c == '\u{202f}'
    ||| c == '\u{205f}'
    ||| c == '\u{3000}'
}

/// `s` without the white space it begins with.
pub open spec fn trim_start(s: Seq<char>) -> Seq<char>
    decreases s.len(),
{
    if s.len() > 0 && is_whitespace(s.first()) {
        trim_start(s.drop_first())
    } else {
        s
    }
}

/// `s` without the white space it ends with.
pub open spec fn trim_end(s: Seq<char>) -> Seq<char>
    decreases s.len(),
{
    if s.len() > 0 && is_whitespace(s.last()) {
        trim_end(s.drop_last())
    } else {
        s
    }
}

/// `s` without the white space at either end.
pub open spec fn trimmed(s: Seq<char>) -> Seq<char> {
    trim_end(trim_start(s))
}

/// Whether `answer` agrees to the run: without the white space around it, it
/// is the one lower-case letter `y`.
pub open spec fn is_affirmative(answer: Seq<char>) -> bool {
    trimmed(answer) == "y"@
}

/// Whether `s` holds `y` at `at` and white space everywhere else.
pub open spec fn lone_y_at(s: Seq<char>, at: int) -> bool {
    &&& 0 <= at < s.len()
    &&& s[at] == 'y'
    &&& forall|k: int| 0 <= k < s.len() && k != at ==> is_whitespace(#[trigger] s[k])
}

/// Whether `c` is white space.
pub fn char_is_whitespace(c: char) -> (yes: bool)
    ensures
        yes == is_whitespace(c),
{
    ('\u{9}' <= c && c <= '\u{d}') || c == ' ' || c == '\u{85}' || c == '\u{a0}' || c
        == '\u{1680}' || ('\u{2000}' <= c && c <= '\u{200a}') || c == '\u{2028}' || c
        == '\u{2029}' || c == '\u{202f}' || c == '\u{205f}' || c == '\u{3000}'
}

/// Where the white space at the start of `s` ends.
proof fn lemma_trim_start(s: Seq<char>) -> (start: int)
    ensures
        0 <= start <= s.len(),
        trim_start(s) == s.skip(start),
        forall|k: int| 0 <= k < start ==> is_whitespace(#[trigger] s[k]),
        start < s.len() ==> !is_whitespace(s[start]),
    decreases s.len(),
{
    if s.len() > 0 && is_whitespace(s.first()) {
        let rest = lemma_trim_start(s.drop_first());
        assert(s.drop_first().skip(rest) =~= s.skip(rest + 1));
        assert forall|k: int| 0 <= k < rest + 1 implies is_whitespace(#[trigger] s[k]) by {
            if k > 0 {
                assert(s[k] == s.drop_first()[k - 1]);
            }
        }
        if rest + 1 < s.len() {
            assert(s[rest + 1] == s.drop_first()[rest]);
        }
        rest + 1
    } else {
        assert(s.skip(0) =~= s);
        0
    }
}

/// Where the white space at the end of `s` begins.
proof fn lemma_trim_end(s: Seq<char>) -> (end: int)
    ensures
        0 <= end <= s.len(),
        trim_end(s) == s.take(end),
        forall|k: int| end <= k < s.len() ==> is_whitespace(#[trigger] s[k]),
        end > 0 ==> !is_whitespace(s[end - 1]),
    decreases s.len(),
{
    if s.len() > 0 && is_whitespace(s.last()) {
        let end = lemma_trim_end(s.drop_last());
        assert(s.drop_last().take(end) =~= s.take(end));
        assert forall|k: int| end <= k < s.len() implies is_whitespace(#[trigger] s[k]) by {
            if k < s.len() - 1 {
                assert(s[k] == s.drop_last()[k]);
            }
        }
        if end > 0 {
            assert(s[end - 1] == s.drop_last()[end - 1]);
        }
        end
    } else {
        assert(s.take(s.len() as int) =~= s);
        s.len() as int
    }
}

/// An answer agrees exactly when it holds one `y` and, besides it, nothing
/// but white space.
pub proof fn lemma_affirmative_is_lone_y(answer: Seq<char>)
    ensures
        is_affirmative(answer) <==> exists|at: int| lone_y_at(answer, at),
{
    reveal_strlit("y");
    let start = lemma_trim_start(answer);
    let rest = answer.skip(start);
    let end = lemma_trim_end(rest);
    let core = rest.take(end);
    assert(trimmed(answer) == core);
    if is_affirmative(answer) {
        assert(core.len() == 1);
        assert(core[0] == 'y');
        assert(end == 1);
        assert(answer[start] == rest[0]);
        assert forall|k: int| 0 <= k < answer.len() && k != start implies is_whitespace(
            #[trigger] answer[k],
        ) by {
            if k > start {
                assert(answer[k] == rest[k - start]);
            }
        }
        assert(lone_y_at(answer, start));
    }
    if exists|at: int| lone_y_at(answer, at) {
        let at = choose|at: int| lone_y_at(answer, at);
        assert(!is_whitespace('y'));
        if start < at {
            assert(is_whitespace(answer[start]));
        }
        assert(start == at);
        assert(rest[0] == answer[start]);
        if end > 1 {
            assert(rest[end - 1] == answer[start + end - 1]);
            assert(is_whitespace(answer[start + end - 1]));
        }
        assert(end == 1);
        assert(core =~= "y"@);
    }
}

/// Whether `answer`, a line as the user typed it, agrees to the run.
pub fn confirmed(answer: &str) -> (yes: bool)
    ensures
        yes == is_affirmative(answer@),
{
    let mut found = false;
    let mut refused = false;
    let ghost mut at: int = 0;
    let ghost mut spoiled: int = 0;
    for c in walk: answer.chars()
        invariant
            walk.seq() == answer@,
            !found && !refused ==> forall|k: int|
                0 <= k < walk.index() ==> is_whitespace(#[trigger] answer@[k]),
            found && !refused ==> lone_y_at(answer@.take(walk.index() as int), at),
            refused ==> 0 <= spoiled < walk.index() && !is_whitespace(answer@[spoiled]) && (
            answer@[spoiled] != 'y' || (0 <= at < walk.index() && at != spoiled && !is_whitespace(
                answer@[at],
            ))),
    {
        let ghost seen = walk.index() as int;
        if !char_is_whitespace(c) {
            if found || c != 'y' {
                proof {
                    if !refused {
                        if found {
                            assert(answer@.take(seen)[at] == answer@[at]);
                        }
                        spoiled = seen;
                    }
                }
                refused = true;
            } else {
                found = true;
                proof {
                    at = seen;
                    if !refused {
                        assert(lone_y_at(answer@.take(seen + 1), at));
                    }
                }
            }
        } else {
            proof {
                if found && !refused {
                    assert forall|k: int| 0 <= k < seen + 1 && k != at implies is_whitespace(
                        #[trigger] answer@.take(seen + 1)[k],
                    ) by {
                        if k < seen {
                            assert(answer@.take(seen + 1)[k] == answer@.take(seen)[k]);
                        }
                    }
                    assert(lone_y_at(answer@.take(seen + 1), at));
                }
            }
        }
    }
    proof {
        lemma_affirmative_is_lone_y(answer@);
        assert(answer@.take(answer@.len() as int) =~= answer@);
        if refused {
            if exists|i: int| lone_y_at(answer@, i) {
                let i = choose|i: int| lone_y_at(answer@, i);
                assert(!is_whitespace('y'));
                assert(i == spoiled);
                assert(is_whitespace(answer@[at]));
            }
        } else if !found {
            if exists|i: int| lone_y_at(answer@, i) {
                let i = choose|i: int| lone_y_at(answer@, i);
                assert(is_whitespace(answer@[i]));
                assert(!is_whitespace('y'));
            }
        }
    }
    found && !refused
}

} // verus!
