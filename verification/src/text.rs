use vstd::prelude::*;
use vstd::string::*;
use vstd::utf8::*;

verus! {

broadcast use vstd::string::group_string_axioms;

/// What `String::from_utf8_lossy` makes of a byte sequence.
pub uninterp spec fn lossy_utf8(bytes: Seq<u8>) -> Seq<char>;

/// Calls `String::from_utf8_lossy`. Trusted: the text is the named lossy
/// decoding of the bytes, and, as the documentation says, exactly the decoded
/// text when the bytes are valid UTF-8.
#[verifier::external_body]
pub(crate) fn decode_lossy(bytes: &[u8]) -> (text: String)
    ensures
        text@ == lossy_utf8(bytes@),
        valid_utf8(bytes@) ==> text@ == decode_utf8(bytes@),
{
    String::from_utf8_lossy(bytes).into_owned()
}

/// Calls `String::push`. Trusted: the character is appended at the end.
#[verifier::external_body]
pub(crate) fn push_char(s: &mut String, c: char)
    ensures
        final(s)@ == old(s)@.push(c),
{
    s.push(c);
}

/// Calls `String::pop`. Trusted: the last character is removed and returned,
/// and an empty string is left as it was.
#[verifier::external_body]
pub(crate) fn pop_char(s: &mut String) -> (c: Option<char>)
    ensures
        old(s)@.len() == 0 ==> c is None && final(s)@ == old(s)@,
        old(s)@.len() > 0 ==> c == Some(old(s)@.last()) && final(s)@ == old(s)@.drop_last(),
{
    s.pop()
}

/// Characters allowed in a plain file or directory name.
pub open spec fn is_name_char(c: char) -> bool {
    ||| ('a' <= c && c <= 'z')
    ||| ('A' <= c && c <= 'Z')
    ||| ('0' <= c && c <= '9')
    ||| c == '.'
    ||| c == '_'
    ||| c == '-'
}

/// A non-empty relative name without separators that does not start with a
/// dot, such as `config.toml`.
pub open spec fn is_plain_name(part: Seq<char>) -> bool {
    &&& part.len() > 0
    &&& part[0] != '.'
    &&& forall|i: int| 0 <= i < part.len() ==> is_name_char(#[trigger] part[i])
}

/// `s` ends with `suffix`.
pub open spec fn ends_with(s: Seq<char>, suffix: Seq<char>) -> bool {
    &&& suffix.len() <= s.len()
    &&& s.subrange(s.len() - suffix.len(), s.len() as int) == suffix
}

/// `base` starts with the Windows verbatim prefix `\\?\`.
pub open spec fn has_verbatim_prefix(base: Seq<char>) -> bool {
    &&& base.len() >= 4
    &&& base[0] == '\\'
    &&& base[1] == '\\'
    &&& base[2] == '?'
    &&& base[3] == '\\'
}

/// `base` is a path after which a separator goes before a name is added: it
/// is not empty and does not end with `/`, `\` or `:`.
pub open spec fn needs_separator(base: Seq<char>) -> bool {
    &&& base.len() > 0
    &&& base.last() != '/'
    &&& base.last() != '\\'
    &&& base.last() != ':'
}

/// `joined` is `part` appended to `base` as `PathBuf::push` does it: directly
/// when `base` is empty or ends with `/`; after one separator (`/`, or `\` on
/// Windows) when `base` needs one; and when `base` ends with `\` or `:`,
/// whose meaning depends on the platform, directly or after a separator
/// (`\` only where `:` ends a base that is not a bare drive).
pub open spec fn is_joined(joined: Seq<char>, base: Seq<char>, part: Seq<char>) -> bool {
    if base.len() == 0 || base.last() == '/' {
        joined == base + part
    } else if needs_separator(base) {
        ||| joined == base.push('/') + part
        ||| joined == base.push('\\') + part
    } else if base.last() == '\\' {
        ||| joined == base + part
        ||| joined == base.push('/') + part
    } else {
        ||| joined == base + part
        ||| joined == base.push('/') + part
        ||| joined == base.push('\\') + part
    }
}

/// Calls `std::path::Path::join` and renders the result as text. Trusted:
/// joining a plain relative name yields a path that ends with that name and,
/// as `PathBuf::push` documents for relative paths, extends `base` by the
/// name, with a separator in between exactly when `base` needs one (see
/// [`is_joined`]). Which separator is used depends on the platform and is
/// left open; so is the rest of the result for a `base` with a Windows
/// verbatim prefix, which `push` normalizes.
#[verifier::external_body]
pub(crate) fn path_join(base: &str, part: &str) -> (joined: String)
    requires
        is_plain_name(part@),
    ensures
        ends_with(joined@, part@),
        !has_verbatim_prefix(base@) ==> is_joined(joined@, base@, part@),
{
    std::path::Path::new(base).join(part).to_string_lossy().into_owned()
}

/// The character of a decimal digit.
pub open spec fn digit_char(d: nat) -> char {
    (d + 48) as char
}

/// Decimal notation of a natural number, without leading zeros.
pub open spec fn decimal(n: nat) -> Seq<char>
    decreases n,
{
    if n < 10 {
        seq![digit_char(n)]
    } else {
        decimal(n / 10).push(digit_char(n % 10))
    }
}

/// Renders `n` in decimal notation.
pub fn decimal_string(n: u64) -> (s: String)
    ensures
        s@ == decimal(n as nat),
    decreases n,
{
    let d: u8 = (n % 10) as u8;
    let c: char = (48u8 + d) as char;
    if n < 10 {
        let mut s = String::new();
        push_char(&mut s, c);
        s
    } else {
        let mut s = decimal_string(n / 10);
        push_char(&mut s, c);
        s
    }
}

/// Compares two strings by their characters.
pub fn str_eq(a: &str, b: &str) -> (eq: bool)
    ensures
        eq == (a@ == b@),
{
    let x = a.as_bytes();
    let y = b.as_bytes();
    proof {
        encode_utf8_decode_utf8(a@);
        encode_utf8_decode_utf8(b@);
    }
    if x.len() != y.len() {
        return false;
    }
    let mut i: usize = 0;
    while i < x.len()
        invariant
            x.len() == y.len(),
            x@ == a.spec_bytes(),
            y@ == b.spec_bytes(),
            decode_utf8(a.spec_bytes()) == a@,
            decode_utf8(b.spec_bytes()) == b@,
            0 <= i <= x.len(),
            forall|j: int| 0 <= j < i ==> x@[j] == y@[j],
        decreases x.len() - i,
    {
        if x[i] != y[i] {
            return false;
        }
        i = i + 1;
    }
    assert(x@ =~= y@);
    true
}

/// A line without the carriage return that precedes its line feed.
pub open spec fn strip_cr(line: Seq<char>) -> Seq<char> {
    if line.len() > 0 && line.last() == '\r' {
        line.drop_last()
    } else {
        line
    }
}

/// Reading `s` from the start: the lines ended so far by a line feed (each
/// without its `\r\n` or `\n`), and the unfinished text after the last line feed.
pub open spec fn scan_lines(s: Seq<char>) -> (Seq<Seq<char>>, Seq<char>)
    decreases s.len(),
{
    if s.len() == 0 {
        (Seq::empty(), Seq::empty())
    } else {
        let prev = scan_lines(s.drop_last());
        if s.last() == '\n' {
            (prev.0.push(strip_cr(prev.1)), Seq::empty())
        } else {
            (prev.0, prev.1.push(s.last()))
        }
    }
}

/// The lines of a text: split at each line feed, a carriage return before the
/// line feed removed, and a final line kept only when it is not empty.
pub open spec fn lines_of(s: Seq<char>) -> Seq<Seq<char>> {
    let p = scan_lines(s);
    if p.1.len() == 0 {
        p.0
    } else {
        p.0.push(p.1)
    }
}

/// The non-empty members of a sequence of lines, in order.
pub open spec fn drop_empty(lines: Seq<Seq<char>>) -> Seq<Seq<char>>
    decreases lines.len(),
{
    if lines.len() == 0 {
        lines
    } else {
        let rest = drop_empty(lines.drop_last());
        if lines.last().len() > 0 {
            rest.push(lines.last())
        } else {
            rest
        }
    }
}

/// The non-empty lines of a text.
pub open spec fn nonempty_lines(s: Seq<char>) -> Seq<Seq<char>> {
    drop_empty(lines_of(s))
}

/// Removes one carriage return at the end of `line`, if there is one.
pub(crate) fn strip_trailing_cr(line: &mut String)
    ensures
        final(line)@ == strip_cr(old(line)@),
{
    match pop_char(line) {
        Some(c) => {
            if c != '\r' {
                push_char(line, c);
            }
        },
        None => {},
    }
    proof {
        if old(line)@.len() > 0 {
            assert(old(line)@.drop_last().push(old(line)@.last()) =~= old(line)@);
        }
    }
}

/// The non-empty lines of `text`, in order, as a line-by-line reader returns
/// them (line feed and a carriage return before it removed).
pub fn split_nonempty_lines(text: &str) -> (lines: Vec<String>)
    ensures
        lines.deep_view() == nonempty_lines(text@),
{
    let mut done: Vec<String> = Vec::new();
    let mut cur = String::new();
    for ch in it: text.chars()
        invariant
            it.seq() == text@,
            done.deep_view() == drop_empty(scan_lines(text@.take(it.index() as int)).0),
            cur@ == scan_lines(text@.take(it.index() as int)).1,
    {
        let ghost pre = text@.take(it.index() as int);
        let ghost post = text@.take(it.index() + 1);
        assert(post.drop_last() =~= pre);
        if ch == '\n' {
            strip_trailing_cr(&mut cur);
            let ghost lines = scan_lines(pre).0.push(cur@);
            assert(lines.drop_last() =~= scan_lines(pre).0);
            if cur.as_str().is_empty() {
            } else {
                let ghost before = done.deep_view();
                done.push(cur);
                assert(done.deep_view() =~= before.push(lines.last()));
            }
            cur = String::new();
        } else {
            push_char(&mut cur, ch);
        }
    }
    assert(text@.take(text@.len() as int) =~= text@);
    let ghost p = scan_lines(text@);
    if !cur.as_str().is_empty() {
        let ghost before = done.deep_view();
        assert(p.0.push(p.1).drop_last() =~= p.0);
        done.push(cur);
        assert(done.deep_view() =~= before.push(p.1));
    }
    done
}

} // verus!
