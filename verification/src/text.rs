//! Text helpers: what the pipelines need of strings, stated over sequences of
//! characters.

use vstd::prelude::*;
use vstd::string::*;
use vstd::utf8::*;

verus! {

/// `std::str::Utf8Error`, carried through unread.
#[verifier::external_type_specification]
#[verifier::external_body]
pub struct ExUtf8Error(std::str::Utf8Error);

/// `shlex::QuoteError`, carried through unread.
#[verifier::external_type_specification]
#[verifier::external_body]
pub struct ExQuoteError(shlex::QuoteError);

/// The characters of each string of a list, in order.
pub open spec fn texts(v: Seq<String>) -> Seq<Seq<char>> {
    Seq::new(v.len(), |i: int| v[i]@)
}

/// The characters of an optional string.
pub open spec fn opt_text(s: Option<String>) -> Option<Seq<char>> {
    match s {
        Some(t) => Some(t@),
        None => None,
    }
}

/// Whether `c` has the Unicode property White_Space.
pub open spec fn is_space(c: char) -> bool {
    ||| '\u{9}' <= c <= '\u{d}'
    ||| c == ' '
    ||| c == '\u{85}'
    ||| c == '\u{a0}'
    ||| c == '\u{1680}'
    ||| '\u{2000}' <= c <= '\u{200a}'
    ||| c == '\u{2028}'
    ||| c == '\u{2029}'
    ||| c == '\u{202f}'
    ||| c == '\u{205f}'
    ||| c == '\u{3000}'
}

/// `s` without its leading white space.
pub open spec fn trimmed_start(s: Seq<char>) -> Seq<char>
    decreases s.len(),
{
    if s.len() > 0 && is_space(s.first()) {
        trimmed_start(s.drop_first())
    } else {
        s
    }
}

/// `s` without its trailing white space.
pub open spec fn trimmed_end(s: Seq<char>) -> Seq<char>
    decreases s.len(),
{
    if s.len() > 0 && is_space(s.last()) {
        trimmed_end(s.drop_last())
    } else {
        s
    }
}

/// `s` without leading and trailing white space.
pub open spec fn trimmed(s: Seq<char>) -> Seq<char> {
    trimmed_end(trimmed_start(s))
}

/// The words in order, with `sep` between each two neighbours.
pub open spec fn joined(words: Seq<Seq<char>>, sep: Seq<char>) -> Seq<char>
    decreases words.len(),
{
    if words.len() == 0 {
        Seq::empty()
    } else if words.len() == 1 {
        words[0]
    } else {
        joined(words.drop_last(), sep) + sep + words.last()
    }
}

/// Whether one of the words holds a nul character.
pub open spec fn has_nul(words: Seq<Seq<char>>) -> bool {
    exists|i: int, j: int| 0 <= i < words.len() && 0 <= j < words[i].len() && words[i][j] == '\0'
}

/// One word as `shlex::try_join` quotes it for a POSIX shell.
pub uninterp spec fn shell_quoted(word: Seq<char>) -> Seq<char>;

/// The words as one line that a POSIX shell splits back into them: each
/// quoted where it has to be, with single spaces between them.
pub open spec fn shell_joined(words: Seq<Seq<char>>) -> Seq<char> {
    joined(Seq::new(words.len(), |i: int| shell_quoted(words[i])), " "@)
}

/// What `std::str::from_utf8` reports of bytes that are not well-formed
/// UTF-8: how far they are, and what is wrong behind that.
pub uninterp spec fn utf8_fault(bytes: Seq<u8>) -> std::str::Utf8Error;

/// `std::str::from_utf8` succeeds exactly on well-formed UTF-8 and then gives
/// the characters that the bytes encode.
pub assume_specification[ std::str::from_utf8 ](v: &[u8]) -> (r: Result<
    &str,
    std::str::Utf8Error,
>)
    ensures
        r is Ok <==> valid_utf8(v@),
        r matches Ok(s) ==> s@ == decode_utf8(v@),
        r matches Err(e) ==> e == utf8_fault(v@),
;

/// `str::trim` removes leading and trailing white space.
pub assume_specification[ str::trim ](s: &str) -> (r: &str)
    ensures
        r@ == trimmed(s@),
;

/// `str::starts_with` with a string pattern: whether `s` begins with every
/// character of `prefix`, in order.
#[verifier::external_body]
pub(crate) fn starts_with(s: &str, prefix: &str) -> (r: bool)
    ensures
        r == prefix@.is_prefix_of(s@),
{
    s.starts_with(prefix)
}

/// `shlex::try_join` with default settings: it fails exactly where a word
/// holds a nul character, and else quotes each word for a POSIX shell and puts
/// single spaces between them.
#[verifier::external_body]
pub(crate) fn try_join(words: &Vec<String>) -> (r: Result<String, shlex::QuoteError>)
    ensures
        r is Err <==> has_nul(texts(words@)),
        r matches Ok(s) ==> s@ == joined(
            Seq::new(words@.len(), |i: int| shell_quoted(words@[i]@)),
            " "@,
        ),
{
    shlex::try_join(words.iter().map(String::as_str))
}

/// Appending one string to a list appends its characters to the list's texts.
pub proof fn texts_push(v: Seq<String>, s: String)
    ensures
        texts(v.push(s)) == texts(v).push(s@),
{
    assert(texts(v.push(s)) =~= texts(v).push(s@));
}

/// Joins the words with `sep` between each two neighbours.
pub fn join(words: &Vec<String>, sep: &str) -> (r: String)
    ensures
        r@ == joined(texts(words@), sep@),
{
    let mut out = String::new();
    let mut i: usize = 0;
    while i < words.len()
        invariant
            i <= words.len(),
            out@ == joined(texts(words@).take(i as int), sep@),
        decreases words.len() - i,
    {
        let ghost done = texts(words@).take(i as int);
        let ghost next = texts(words@).take(i + 1);
        assert(next.drop_last() =~= done);
        assert(next.last() == words@[i as int]@);
        if i > 0 {
            out.append(sep);
        } else {
            assert(out@ + words@[i as int]@ =~= words@[i as int]@);
        }
        out.append(words[i].as_str());
        i = i + 1;
    }
    assert(texts(words@).take(words.len() as int) =~= texts(words@));
    out
}

/// The text to hand to the transport for the given options: `quoted` where
/// quoting succeeded, else the options with single spaces between them.
pub fn options_or_plain(quoted: Result<String, shlex::QuoteError>, opts: &Vec<String>) -> (r:
    String)
    ensures
        r@ == (match quoted {
            Ok(s) => s@,
            Err(_) => joined(texts(opts@), " "@),
        }),
{
    match quoted {
        Ok(s) => s,
        Err(_) => join(opts, " "),
    }
}

/// What [`ssh_options`] returns: the shell quoting of the options, or their
/// plain joining where one of them holds a nul character.
pub open spec fn ssh_options_text(opts: Seq<Seq<char>>) -> Seq<char> {
    if has_nul(opts) {
        joined(opts, " "@)
    } else {
        shell_joined(opts)
    }
}

/// The options as one string for the transport's options variable.
pub fn ssh_options(opts: &Vec<String>) -> (r: String)
    ensures
        r@ == ssh_options_text(texts(opts@)),
{
    let quoted = try_join(opts);
    proof {
        let words = texts(opts@);
        assert(Seq::new(opts@.len(), |i: int| shell_quoted(opts@[i]@)) =~= Seq::new(
            words.len(),
            |i: int| shell_quoted(words[i]),
        ));
    }
    options_or_plain(quoted, opts)
}

} // verus!
