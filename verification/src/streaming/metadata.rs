//! "Now playing" metadata: the admin HTTP request that updates the song
//! title on the server, and the watcher that turns the polled contents of a
//! text file into title updates.
use crate::config::{ServerConfig, ServerType};
use crate::encoding::{
    is_ascii_alphanumeric_char, lemma_percent_encoded_is_url_safe, percent_encode_text, percent_encoded,
};
use crate::streaming::{basic_credentials, encode_credentials, mount_path, normalize_mount, starts_with_seq};
use crate::text::{decimal, owned, push_decimal, push_text, same_text};
use vstd::prelude::*;
use vstd::string::*;
use vstd::utf8::*;

verus! {

/// An HTTP GET the application sends to update the song title: the URL, the
/// value of the `Authorization` header and, for Shoutcast, a browser
/// `User-Agent` (some Shoutcast firewalls block requests without one).
#[derive(Debug, Clone)]
pub struct MetadataRequest {
    pub url: String,
    pub authorization: String,
    pub user_agent: Option<String>,
}

/// An ASCII decimal digit.
pub open spec fn is_ascii_digit(c: char) -> bool {
    '0' <= c <= '9'
}

/// Every character is an ASCII decimal digit (true of empty text).
pub open spec fn all_ascii_digits(s: Seq<char>) -> bool {
    forall|i: int| 0 <= i < s.len() ==> is_ascii_digit(#[trigger] s[i])
}

/// Whether every character of `s` is an ASCII digit.
pub fn is_all_ascii_digits(s: &str) -> (r: bool)
    ensures
        r == all_ascii_digits(s@),
{
    let n = s.unicode_len();
    let mut i: usize = 0;
    while i < n
        invariant
            n == s@.len(),
            0 <= i <= n,
            forall|j: int| 0 <= j < i ==> is_ascii_digit(#[trigger] s@[j]),
        decreases n - i,
    {
        let c = s.get_char(i);
        if !('0' <= c && c <= '9') {
            return false;
        }
        i = i + 1;
    }
    true
}

/// The Shoutcast stream id taken from a mount point: the digits after the
/// leading `/` when that is all the mount holds, the mount itself when it is
/// all digits, else stream 1.
pub open spec fn shoutcast_sid(mount: Seq<char>) -> Seq<char> {
    if mount.len() > 1 && mount[0] == '/' && all_ascii_digits(mount.drop_first()) {
        mount.drop_first()
    } else if all_ascii_digits(mount) {
        mount
    } else {
        "1"@
    }
}

/// Computes the Shoutcast stream id of a mount point.
pub fn shoutcast_stream_id(mount: &str) -> (r: String)
    ensures
        r@ == shoutcast_sid(mount@),
{
    let n = mount.unicode_len();
    if n > 1 && mount.get_char(0) == '/' {
        let rest = mount.substring_char(1, n);
        assert(rest@ =~= mount@.drop_first());
        if is_all_ascii_digits(rest) {
            return owned(rest);
        }
    }
    if is_all_ascii_digits(mount) {
        owned(mount)
    } else {
        owned("1")
    }
}

/// The password used for the admin request: Icecast uses the admin
/// password; Shoutcast uses it too unless it is empty, then the source
/// password.
pub open spec fn metadata_password(cfg: ServerConfig) -> Seq<char> {
    if cfg.server_type == ServerType::Shoutcast && cfg.admin_password@.len() == 0 {
        cfg.source_password@
    } else {
        cfg.admin_password@
    }
}

/// The URL of the admin request that sets the song title.
pub open spec fn metadata_url(cfg: ServerConfig, song_title: Seq<char>) -> Seq<char> {
    let mount = mount_path(cfg.mount@);
    let song = percent_encoded(encode_utf8(song_title));
    let origin = "http://"@ + cfg.host@ + ":"@ + decimal(cfg.port as nat);
    match cfg.server_type {
        ServerType::Icecast => origin + "/admin/metadata?mount="@ + mount + "&mode=updinfo&song="@
            + song,
        ServerType::Shoutcast => origin + "/admin.cgi?sid="@ + shoutcast_sid(mount)
            + "&mode=updinfo&pass="@ + cfg.source_password@ + "&song="@ + song,
    }
}

/// For either server type the metadata URL ends with the `song` parameter,
/// whose value is the percent-encoding of the title's UTF-8 bytes and so
/// consists of ASCII letters, digits and `%` only: no character of the title
/// (a space, `&`, `=`, `#`, ...) reaches the URL raw. The URL starts with
/// the server's origin and the admin path of the server type: Icecast's
/// `/admin/metadata` with the mount, Shoutcast's `/admin.cgi` with the
/// stream id and the source password.
pub proof fn lemma_metadata_url_song(cfg: ServerConfig, song_title: Seq<char>)
    ensures
        ({
            let u = metadata_url(cfg, song_title);
            let song = percent_encoded(encode_utf8(song_title));
            let param = "&song="@ + song;
            let origin = "http://"@ + cfg.host@ + ":"@ + decimal(cfg.port as nat);
            &&& param.len() <= u.len()
            &&& u.subrange(u.len() - param.len(), u.len() as int) == param
            &&& forall|i: int| u.len() - song.len() <= i < u.len() ==> is_ascii_alphanumeric_char(#[trigger] u[i])
                || u[i] == '%'
            &&& cfg.server_type == ServerType::Icecast ==> starts_with_seq(
                u,
                origin + "/admin/metadata?mount="@ + mount_path(cfg.mount@) + "&mode=updinfo"@,
            )
            &&& cfg.server_type == ServerType::Shoutcast ==> starts_with_seq(
                u,
                origin + "/admin.cgi?sid="@ + shoutcast_sid(mount_path(cfg.mount@)) + "&mode=updinfo&pass="@
                    + cfg.source_password@,
            )
        }),
{
    let u = metadata_url(cfg, song_title);
    let song = percent_encoded(encode_utf8(song_title));
    let param = "&song="@ + song;
    let origin = "http://"@ + cfg.host@ + ":"@ + decimal(cfg.port as nat);
    lemma_percent_encoded_is_url_safe(encode_utf8(song_title));
    match cfg.server_type {
        ServerType::Icecast => {
            let head = origin + "/admin/metadata?mount="@ + mount_path(cfg.mount@);
            reveal_strlit("&mode=updinfo&song=");
            reveal_strlit("&mode=updinfo");
            reveal_strlit("&song=");
            assert("&mode=updinfo&song="@ =~= "&mode=updinfo"@ + "&song="@);
            assert(u =~= head + "&mode=updinfo"@ + param);
            assert(u.subrange(u.len() - param.len(), u.len() as int) =~= param);
            assert(u.subrange(0, (head + "&mode=updinfo"@).len() as int) =~= head + "&mode=updinfo"@);
            assert forall|i: int| u.len() - song.len() <= i < u.len() implies is_ascii_alphanumeric_char(
                #[trigger] u[i],
            ) || u[i] == '%' by {
                assert(u[i] == song[i - (u.len() - song.len())]);
            }
        },
        ServerType::Shoutcast => {
            let head = origin + "/admin.cgi?sid="@ + shoutcast_sid(mount_path(cfg.mount@)) + "&mode=updinfo&pass="@
                + cfg.source_password@;
            assert(u =~= head + param);
            assert(u.subrange(u.len() - param.len(), u.len() as int) =~= param);
            assert(u.subrange(0, head.len() as int) =~= head);
            assert forall|i: int| u.len() - song.len() <= i < u.len() implies is_ascii_alphanumeric_char(
                #[trigger] u[i],
            ) || u[i] == '%' by {
                assert(u[i] == song[i - (u.len() - song.len())]);
            }
        },
    }
}

/// The browser identification sent to Shoutcast servers.
pub open spec fn browser_user_agent() -> Seq<char> {
    "Mozilla/5.0 (Windows NT 10.0; Win64; x64) AppleWebKit/537.36 (KHTML, like Gecko) Chrome/120.0.0.0 Safari/537.36"@
}

/// Builds the admin request that sets the "now playing" title on the
/// server described by `cfg`.
pub fn metadata_request(cfg: &ServerConfig, song_title: &str) -> (r: MetadataRequest)
    ensures
        r.url@ == metadata_url(*cfg, song_title@),
        r.authorization@ == "Basic "@ + basic_credentials("admin"@, metadata_password(*cfg)),
        cfg.server_type == ServerType::Shoutcast ==> (r.user_agent matches Some(a) && a@
            == browser_user_agent()),
        cfg.server_type == ServerType::Icecast ==> r.user_agent is None,
{
    let encoded_title = percent_encode_text(song_title);
    let mount = normalize_mount(cfg.mount.as_str());
    let mut url = owned("http://");
    push_text(&mut url, cfg.host.as_str());
    push_text(&mut url, ":");
    push_decimal(&mut url, cfg.port as u128);
    let credentials;
    let user_agent;
    match cfg.server_type {
        ServerType::Icecast => {
            push_text(&mut url, "/admin/metadata?mount=");
            push_text(&mut url, mount.as_str());
            push_text(&mut url, "&mode=updinfo&song=");
            push_text(&mut url, encoded_title.as_str());
            credentials = encode_credentials("admin", cfg.admin_password.as_str());
            user_agent = None;
        },
        ServerType::Shoutcast => {
            let sid = shoutcast_stream_id(mount.as_str());
            push_text(&mut url, "/admin.cgi?sid=");
            push_text(&mut url, sid.as_str());
            push_text(&mut url, "&mode=updinfo&pass=");
            push_text(&mut url, cfg.source_password.as_str());
            push_text(&mut url, "&song=");
            push_text(&mut url, encoded_title.as_str());
            let password = if cfg.admin_password.as_str().is_empty() {
                cfg.source_password.as_str()
            } else {
                cfg.admin_password.as_str()
            };
            credentials = encode_credentials("admin", password);
            user_agent = Some(
                owned(
                    "Mozilla/5.0 (Windows NT 10.0; Win64; x64) AppleWebKit/537.36 (KHTML, like Gecko) Chrome/120.0.0.0 Safari/537.36",
                ),
            );
        },
    }
    let mut authorization = owned("Basic ");
    push_text(&mut authorization, credentials.as_str());
    MetadataRequest { url, authorization, user_agent }
}

/// Unicode white space (the `White_Space` property): U+0009 to U+000D,
/// U+0020, U+0085, U+00A0, U+1680, U+2000 to U+200A, U+2028, U+2029, U+202F,
/// U+205F and U+3000.
pub open spec fn is_white_space(c: char) -> bool {
    let u = c as u32;
    ||| 0x09 <= u <= 0x0D
    ||| u == 0x20
    ||| u == 0x85
    ||| u == 0xA0
    ||| u == 0x1680
    ||| 0x2000 <= u <= 0x200A
    ||| u == 0x2028
    ||| u == 0x2029
    ||| u == 0x202F
    ||| u == 0x205F
    ||| u == 0x3000
}

/// The text without its leading white space.
pub open spec fn trim_start_ws(s: Seq<char>) -> Seq<char>
    decreases s.len(),
{
    if s.len() > 0 && is_white_space(s[0]) {
        trim_start_ws(s.drop_first())
    } else {
        s
    }
}

/// The text without its trailing white space.
pub open spec fn trim_end_ws(s: Seq<char>) -> Seq<char>
    decreases s.len(),
{
    if s.len() > 0 && is_white_space(s.last()) {
        trim_end_ws(s.drop_last())
    } else {
        s
    }
}

/// The text without leading and trailing Unicode white space.
pub open spec fn trimmed(s: Seq<char>) -> Seq<char> {
    trim_end_ws(trim_start_ws(s))
}

/// `str::trim` from std, copied into a `String`: std documents it as
/// removing leading and trailing white space in the sense of the Unicode
/// `White_Space` property, which `trimmed` states.
#[verifier::external_body]
fn trim_text(s: &str) -> (r: String)
    ensures
        r@ == trimmed(s@),
{
    s.trim().to_string()
}

/// One observation of the watcher: with the last reported title `last` and
/// trimmed contents `t`, the title it remembers afterwards and the title it
/// reports, if any.
pub open spec fn watch_step(last: Seq<char>, t: Seq<char>) -> (Seq<char>, Option<Seq<char>>) {
    if t.len() > 0 && t != last {
        (t, Some(t))
    } else {
        (last, None)
    }
}

/// Polling the same contents again reports nothing new: a title is
/// reported once, however often the file is read.
pub proof fn lemma_title_reported_once(last: Seq<char>, t: Seq<char>)
    ensures
        watch_step(watch_step(last, t).0, t).1 is None,
        watch_step(last, t).1 matches Some(reported) ==> reported.len() > 0 && reported != last,
{
}

/// The watcher polled with `contents` in turn, starting with `last` as the
/// last reported title: the title it remembers at the end and the titles it
/// reports, in order.
pub open spec fn watch_run(last: Seq<char>, contents: Seq<Seq<char>>) -> (Seq<char>, Seq<Seq<char>>)
    decreases contents.len(),
{
    if contents.len() == 0 {
        (last, Seq::empty())
    } else {
        let (remembered, reported) = watch_step(last, trimmed(contents[0]));
        let (end, rest) = watch_run(remembered, contents.drop_first());
        (
            end,
            match reported {
                Some(t) => seq![t] + rest,
                None => rest,
            },
        )
    }
}

/// Over any sequence of polls the watcher reports only non-empty titles,
/// each the trimmed contents of some poll, never the same title twice in a
/// row (nor the title it started from first), and remembers the last title
/// it reported.
pub proof fn lemma_watch_run(last: Seq<char>, contents: Seq<Seq<char>>)
    ensures
        ({
            let (end, reported) = watch_run(last, contents);
            &&& forall|i: int| 0 <= i < reported.len() ==> (#[trigger] reported[i]).len() > 0
            &&& forall|i: int| 0 < i < reported.len() ==> #[trigger] reported[i] != reported[i - 1]
            &&& reported.len() > 0 ==> reported[0] != last
            &&& end == if reported.len() > 0 { reported.last() } else { last }
            &&& forall|i: int| 0 <= i < reported.len() ==> exists|j: int| 0 <= j < contents.len()
                && #[trigger] reported[i] == trimmed(contents[j])
        }),
    decreases contents.len(),
{
    if contents.len() > 0 {
        let (remembered, rep) = watch_step(last, trimmed(contents[0]));
        let tail = contents.drop_first();
        lemma_watch_run(remembered, tail);
        let (end, rest) = watch_run(remembered, tail);
        let reported = watch_run(last, contents).1;
        match rep {
            Some(t) => {
                assert(reported == seq![t] + rest);
                assert forall|i: int| 0 <= i < reported.len() implies exists|j: int| 0 <= j < contents.len()
                    && #[trigger] reported[i] == trimmed(contents[j]) by {
                    if i == 0 {
                        assert(reported[0] == trimmed(contents[0]));
                    } else {
                        assert(reported[i] == rest[i - 1]);
                        let j = choose|j: int| 0 <= j < tail.len() && rest[i - 1] == trimmed(tail[j]);
                        assert(tail[j] == contents[j + 1]);
                    }
                }
                assert forall|i: int| 0 < i < reported.len() implies #[trigger] reported[i] != reported[i - 1] by {
                    if i > 1 {
                        assert(reported[i] == rest[i - 1]);
                        assert(reported[i - 1] == rest[i - 2]);
                    } else {
                        assert(reported[1] == rest[0]);
                    }
                }
                assert forall|i: int| 0 <= i < reported.len() implies (#[trigger] reported[i]).len() > 0 by {
                    if i > 0 {
                        assert(reported[i] == rest[i - 1]);
                    }
                }
                if rest.len() > 0 {
                    assert(reported.last() == rest.last());
                }
            },
            None => {
                assert(reported == rest);
                assert forall|i: int| 0 <= i < reported.len() implies exists|j: int| 0 <= j < contents.len()
                    && #[trigger] reported[i] == trimmed(contents[j]) by {
                    let j = choose|j: int| 0 <= j < tail.len() && rest[i] == trimmed(tail[j]);
                    assert(tail[j] == contents[j + 1]);
                }
            },
        }
    }
}

/// Turns the polled contents of a metadata file into title updates: a new
/// title is reported when the trimmed contents are not empty and differ from
/// the last title reported.
#[derive(Debug, Clone)]
pub struct MetadataWatcher {
    pub last_content: String,
}

impl MetadataWatcher {
    /// A watcher that has reported nothing yet.
    pub fn new() -> (r: MetadataWatcher)
        ensures
            r.last_content@ == Seq::<char>::empty(),
    {
        MetadataWatcher { last_content: String::new() }
    }

    /// Takes contents that are already trimmed; reports them (and remembers
    /// them) when they are a new, non-empty title.
    pub fn observe_trimmed(&mut self, trimmed_content: String) -> (r: Option<String>)
        ensures
            final(self).last_content@ == watch_step(old(self).last_content@, trimmed_content@).0,
            (trimmed_content@.len() > 0 && trimmed_content@ != old(self).last_content@) ==> (r matches Some(t)
                && t@ == trimmed_content@ && final(self).last_content@ == trimmed_content@),
            !(trimmed_content@.len() > 0 && trimmed_content@ != old(self).last_content@) ==> (r is None
                && final(self).last_content == old(self).last_content),
    {
        if !same_text(trimmed_content.as_str(), self.last_content.as_str())
            && !trimmed_content.as_str().is_empty() {
            self.last_content = trimmed_content.clone();
            Some(trimmed_content)
        } else {
            None
        }
    }

    /// Takes the raw contents read from the file.
    pub fn observe(&mut self, content: &str) -> (r: Option<String>)
        ensures
            (trimmed(content@).len() > 0 && trimmed(content@) != old(self).last_content@) ==> (r matches Some(t)
                && t@ == trimmed(content@) && final(self).last_content@ == trimmed(content@)),
            !(trimmed(content@).len() > 0 && trimmed(content@) != old(self).last_content@) ==> (r is None
                && final(self).last_content == old(self).last_content),
    {
        let t = trim_text(content);
        self.observe_trimmed(t)
    }
}

} // verus!
