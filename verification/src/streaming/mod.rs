//! Talking to streaming servers: the source-protocol handshakes for Icecast
//! and Shoutcast, "now playing" metadata updates, and the reconnecting
//! network session that drives them.
pub mod icecast;
pub mod metadata;
pub mod session;
pub mod shoutcast;

pub use session::should_reconnect;

use crate::encoding::{base64_encode, base64_standard, utf8_text};
use crate::text::{occurs_at, owned, push_char, push_text, starts_with_char};
use vstd::prelude::*;
use vstd::utf8::*;

verus! {

/// One HTTP-style header line: `name: value` followed by CRLF.
pub open spec fn header_line(name: Seq<char>, value: Seq<char>) -> Seq<char> {
    name + ": "@ + value + "\r\n"@
}

/// Appends one header line.
pub fn push_header(s: &mut String, name: &str, value: &str)
    ensures
        final(s)@ == old(s)@ + header_line(name@, value@),
{
    push_text(s, name);
    push_text(s, ": ");
    push_text(s, value);
    push_text(s, "\r\n");
    assert(final(s)@ =~= old(s)@ + header_line(name@, value@));
}

/// A mount point as sent to the server: it always starts with `/`.
pub open spec fn mount_path(mount: Seq<char>) -> Seq<char> {
    if mount.len() > 0 && mount[0] == '/' {
        mount
    } else {
        seq!['/'] + mount
    }
}

/// Prefixes the mount point with `/` unless it already starts with one.
pub fn normalize_mount(mount: &str) -> (r: String)
    ensures
        r@ == mount_path(mount@),
{
    if starts_with_char(mount, '/') {
        owned(mount)
    } else {
        let mut s = String::new();
        push_char(&mut s, '/');
        push_text(&mut s, mount);
        assert(s@ =~= seq!['/'] + mount@);
        s
    }
}

/// The value of an HTTP Basic `Authorization` header for `user` and
/// `password`: Base64 of the UTF-8 bytes of `user:password`.
pub open spec fn basic_credentials(user: Seq<char>, password: Seq<char>) -> Seq<char> {
    base64_standard(encode_utf8(user + ":"@ + password))
}

/// Base64 of `user:password`, as HTTP Basic authentication sends it.
pub fn encode_credentials(user: &str, password: &str) -> (r: String)
    ensures
        r@ == basic_credentials(user@, password@),
{
    let mut pair = owned(user);
    push_text(&mut pair, ":");
    push_text(&mut pair, password);
    base64_encode(pair.as_str().as_bytes())
}

/// The text of a server reply: its bytes decoded as UTF-8, or empty text
/// when they are not valid UTF-8.
pub open spec fn reply_text(bytes: Seq<u8>) -> Seq<char> {
    if valid_utf8(bytes) {
        decode_utf8(bytes)
    } else {
        Seq::empty()
    }
}

/// Decodes the bytes a server answered with; invalid UTF-8 reads as empty.
pub fn response_text(bytes: &[u8]) -> (r: String)
    ensures
        r@ == reply_text(bytes@),
{
    match utf8_text(bytes) {
        Some(t) => t,
        None => String::new(),
    }
}

/// A mount point as sent always starts with `/`, one that already does is
/// sent unchanged, and normalising twice changes nothing more.
pub proof fn lemma_mount_path_rooted(mount: Seq<char>)
    ensures
        mount_path(mount).len() > 0,
        mount_path(mount)[0] == '/',
        (mount.len() > 0 && mount[0] == '/') ==> mount_path(mount) == mount,
        mount_path(mount_path(mount)) == mount_path(mount),
{
}

/// `s` ends with a line break (CRLF).
pub open spec fn ends_with_crlf(s: Seq<char>) -> bool {
    s.len() >= 2 && s.subrange(s.len() - 2, s.len() as int) == "\r\n"@
}

/// The request text `r` carries, on a line of its own (right after a CRLF),
/// the header `name: value` ended by CRLF.
pub open spec fn has_header(r: Seq<char>, name: Seq<char>, value: Seq<char>) -> bool {
    exists|i: int|
        2 <= i && r.subrange(i - 2, i) == "\r\n"@ && #[trigger] occurs_at(r, name + ": "@ + value + "\r\n"@, i)
}

/// A header line appended after a line break is a header of the text, and
/// the text ends with a line break again.
pub proof fn lemma_header_appended(s: Seq<char>, name: Seq<char>, value: Seq<char>)
    requires
        ends_with_crlf(s),
    ensures
        has_header(s + header_line(name, value), name, value),
        ends_with_crlf(s + header_line(name, value)),
{
    reveal_strlit("\r\n");
    let h = header_line(name, value);
    let t = s + h;
    let i = s.len() as int;
    assert(h =~= name + ": "@ + value + "\r\n"@);
    assert(t.subrange(i - 2, i) =~= s.subrange(i - 2, i));
    assert(t.subrange(i, i + h.len()) =~= h);
    assert(occurs_at(t, name + ": "@ + value + "\r\n"@, i));
    assert(t.subrange(t.len() - 2, t.len() as int) =~= h.subrange(h.len() - 2, h.len() as int));
    assert(h.subrange(h.len() - 2, h.len() as int) =~= "\r\n"@);
}

/// A header stays a header when more text follows.
pub proof fn lemma_header_kept(s: Seq<char>, t: Seq<char>, name: Seq<char>, value: Seq<char>)
    requires
        has_header(s, name, value),
    ensures
        has_header(s + t, name, value),
{
    let i = choose|i: int|
        2 <= i && s.subrange(i - 2, i) == "\r\n"@ && #[trigger] occurs_at(s, name + ": "@ + value + "\r\n"@, i);
    let pat = name + ": "@ + value + "\r\n"@;
    assert((s + t).subrange(i - 2, i) =~= s.subrange(i - 2, i));
    assert((s + t).subrange(i, i + pat.len()) =~= s.subrange(i, i + pat.len()));
    assert(occurs_at(s + t, pat, i));
}

/// A request line or header line ends with a line break.
pub proof fn lemma_line_ends_crlf(s: Seq<char>, line_end: Seq<char>)
    requires
        line_end == "\r\n"@,
    ensures
        ends_with_crlf(s + line_end),
{
    reveal_strlit("\r\n");
    assert((s + line_end).subrange((s + line_end).len() - 2, (s + line_end).len() as int) =~= line_end);
}

/// A request ended by an empty line: its text ends with CRLF CRLF.
pub open spec fn ends_with_blank_line(s: Seq<char>) -> bool {
    s.len() >= 4 && s.subrange(s.len() - 4, s.len() as int) == "\r\n\r\n"@
}

/// A CRLF after a line break ends the header block.
pub proof fn lemma_blank_line_appended(s: Seq<char>, line_end: Seq<char>)
    requires
        ends_with_crlf(s),
        line_end == "\r\n"@,
    ensures
        ends_with_blank_line(s + line_end),
{
    reveal_strlit("\r\n");
    reveal_strlit("\r\n\r\n");
    let t = s + line_end;
    assert(t.subrange(t.len() - 4, t.len() as int) =~= s.subrange(s.len() - 2, s.len() as int) + line_end);
    assert("\r\n"@ + "\r\n"@ =~= "\r\n\r\n"@);
}

/// `s` begins with `l`.
pub open spec fn starts_with_seq(s: Seq<char>, l: Seq<char>) -> bool {
    l.len() <= s.len() && s.subrange(0, l.len() as int) == l
}

/// A text begins with its own beginning, and keeps it when more follows.
pub proof fn lemma_prefix_kept(s: Seq<char>, t: Seq<char>, l: Seq<char>)
    requires
        starts_with_seq(s, l),
    ensures
        starts_with_seq(s + t, l),
{
    assert((s + t).subrange(0, l.len() as int) =~= s.subrange(0, l.len() as int));
}

/// Every header of a text stays a header when more text follows.
pub proof fn lemma_headers_kept(s: Seq<char>, t: Seq<char>)
    ensures
        forall|name: Seq<char>, value: Seq<char>| has_header(s, name, value) ==> #[trigger] has_header(s + t, name, value),
{
    assert forall|name: Seq<char>, value: Seq<char>| has_header(s, name, value) implies #[trigger] has_header(
        s + t,
        name,
        value,
    ) by {
        lemma_header_kept(s, t, name, value);
    }
}

/// Appending a header line after a line break: the new header is there,
/// the earlier headers and the beginning are kept, and the text ends with a
/// line break again.
pub proof fn lemma_next_header(s: Seq<char>, first: Seq<char>, name: Seq<char>, value: Seq<char>)
    requires
        ends_with_crlf(s),
        starts_with_seq(s, first),
    ensures
        ends_with_crlf(s + header_line(name, value)),
        starts_with_seq(s + header_line(name, value), first),
        has_header(s + header_line(name, value), name, value),
        forall|n: Seq<char>, v: Seq<char>| has_header(s, n, v) ==> #[trigger] has_header(s + header_line(name, value), n, v),
{
    lemma_header_appended(s, name, value);
    lemma_headers_kept(s, header_line(name, value));
    lemma_prefix_kept(s, header_line(name, value), first);
}

/// Ending the header block with an empty line keeps every header and the
/// beginning.
pub proof fn lemma_end_of_headers(s: Seq<char>, first: Seq<char>, line_end: Seq<char>)
    requires
        ends_with_crlf(s),
        starts_with_seq(s, first),
        line_end == "\r\n"@,
    ensures
        ends_with_blank_line(s + line_end),
        starts_with_seq(s + line_end, first),
        forall|n: Seq<char>, v: Seq<char>| has_header(s, n, v) ==> #[trigger] has_header(s + line_end, n, v),
{
    lemma_blank_line_appended(s, line_end);
    lemma_headers_kept(s, line_end);
    lemma_prefix_kept(s, line_end, first);
}

/// A request line ended by CRLF starts the request.
pub proof fn lemma_first_line(head: Seq<char>, tail: Seq<char>)
    requires
        tail.len() >= 2,
        tail.subrange(tail.len() - 2, tail.len() as int) == "\r\n"@,
    ensures
        ends_with_crlf(head + tail),
        starts_with_seq(head + tail, head + tail),
{
    let t = head + tail;
    assert(t.subrange(t.len() - 2, t.len() as int) =~= tail.subrange(tail.len() - 2, tail.len() as int));
    assert(t.subrange(0, t.len() as int) =~= t);
}

} // verus!
