//! Mapping arbitrary text to a safe filesystem path component.

use vstd::prelude::*;
use vstd::std_specs::iter::IteratorSpec;

verus! {

broadcast use vstd::string::group_string_axioms;

/// The characters that may not appear in a filesystem path component:
/// path separators, wildcard and metacharacters, the drive or scheme
/// separator, the pipe, quote and angle brackets, the extension separator,
/// and the space.
pub open spec fn forbidden_char(c: char) -> bool {
    ||| c == '/'
    ||| c == '\\'
    ||| c == '?'
    ||| c == '%'
    ||| c == '*'
    ||| c == ':'
    ||| c == '|'
    ||| c == '"'
    ||| c == '<'
    ||| c == '>'
    ||| c == '.'
    ||| c == ' '
}

/// What sanitizing yields: the input with each forbidden character replaced
/// by a single underscore, every other character kept in place.
pub open spec fn sanitized(s: Seq<char>) -> Seq<char> {
    s.map_values(|c: char| if forbidden_char(c) { '_' } else { c })
}

fn is_forbidden(c: char) -> (r: bool)
    ensures
        r == forbidden_char(c),
{
    c == '/' || c == '\\' || c == '?' || c == '%' || c == '*' || c == ':' || c == '|' || c == '"'
        || c == '<' || c == '>' || c == '.' || c == ' '
}

/// Relies on std's `String::push`: appends exactly the given character.
#[verifier::external_body]
fn push_char(s: &mut String, c: char)
    ensures
        final(s)@ == old(s)@.push(c),
{
    s.push(c);
}

/// Replaces each forbidden character of `filename` with an underscore.
///
/// Total and pure: it accepts every string and never fails.
pub fn sanitize_filename(filename: &str) -> (r: String)
    ensures
        r@ == sanitized(filename@),
{
    let mut out = String::new();
    let mut it = filename.chars();
    let ghost mut done: Seq<char> = Seq::empty();
    loop
        invariant
            it.decrease() is Some,
            filename@ == done + it.remaining(),
            out@ == sanitized(done),
        ensures
            out@ == sanitized(filename@),
        decreases it.decrease()->0,
    {
        match it.next() {
            Some(c) => {
                let kept = if is_forbidden(c) {
                    '_'
                } else {
                    c
                };
                push_char(&mut out, kept);
                proof {
                    done = done.push(c);
                    assert(out@ =~= sanitized(done));
                }
            },
            None => {
                proof {
                    assert(filename@ =~= done);
                }
                break ;
            },
        }
    }
    out
}

/// A sanitized string never holds a forbidden character.
pub proof fn lemma_sanitized_free_of_forbidden(s: Seq<char>)
    ensures
        forall|i: int|
            0 <= i < sanitized(s).len() ==> !forbidden_char(#[trigger] sanitized(s)[i]),
{
}

/// Sanitizing an already-sanitized string changes nothing.
pub proof fn lemma_sanitize_idempotent(s: Seq<char>)
    ensures
        sanitized(sanitized(s)) == sanitized(s),
{
    assert(sanitized(sanitized(s)) =~= sanitized(s));
}

} // verus!
