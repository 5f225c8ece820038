//! The Shoutcast source handshake: a `SOURCE <mount> ICY/1.0` request with
//! Basic credentials made of an empty user name and the source password,
//! answered by `ICY 200` or `200 OK`.
use crate::config::ServerConfig;
use crate::streaming::icecast::{public_flag, escape_header as escape_icecast_header};
use crate::streaming::{
    basic_credentials, encode_credentials, ends_with_blank_line, has_header, header_line, lemma_end_of_headers,
    lemma_first_line, lemma_next_header, mount_path, normalize_mount, push_header, starts_with_seq,
};
use crate::text::{contains_seq, contains_text, decimal, owned, push_decimal, push_text, without_line_breaks};
use vstd::prelude::*;

verus! {

/// Strips carriage returns and line feeds from a header value so that a
/// configured text cannot inject further header lines.
pub fn escape_header(s: &str) -> (r: String)
    ensures
        r@ == without_line_breaks(s@),
{
    escape_icecast_header(s)
}

/// The request that opens a Shoutcast source connection.
pub open spec fn shoutcast_request_text(cfg: ServerConfig, content_type: Seq<char>, bitrate_kbps: u32) -> Seq<char> {
    "SOURCE "@ + mount_path(cfg.mount@) + " ICY/1.0\r\n"@
        + header_line("Authorization"@, "Basic "@ + basic_credentials(""@, cfg.source_password@))
        + header_line("Content-Type"@, content_type)
        + header_line("icy-name"@, without_line_breaks(cfg.stream_name@))
        + header_line("icy-description"@, without_line_breaks(cfg.stream_description@))
        + header_line("icy-url"@, without_line_breaks(cfg.stream_url@))
        + header_line("icy-genre"@, without_line_breaks(cfg.stream_genre@))
        + header_line("icy-bitrate"@, decimal(bitrate_kbps as nat))
        + header_line("icy-pub"@, public_flag(cfg.public))
        + "\r\n"@
}

/// Builds the request that opens a Shoutcast source connection for `cfg`.
pub fn shoutcast_request(cfg: &ServerConfig, content_type: &str, bitrate_kbps: u32) -> (r: String)
    ensures
        r@ == shoutcast_request_text(*cfg, content_type@, bitrate_kbps),
{
    let mount = normalize_mount(cfg.mount.as_str());
    let credentials = encode_credentials("", cfg.source_password.as_str());
    let mut auth = owned("Basic ");
    push_text(&mut auth, credentials.as_str());
    let name = escape_header(cfg.stream_name.as_str());
    let desc = escape_header(cfg.stream_description.as_str());
    let url = escape_header(cfg.stream_url.as_str());
    let genre = escape_header(cfg.stream_genre.as_str());
    let mut bitrate = String::new();
    push_decimal(&mut bitrate, bitrate_kbps as u128);
    assert(bitrate@ =~= decimal(bitrate_kbps as nat));
    let public = if cfg.public { "1" } else { "0" };
    let mut req = owned("SOURCE ");
    push_text(&mut req, mount.as_str());
    push_text(&mut req, " ICY/1.0\r\n");
    push_header(&mut req, "Authorization", auth.as_str());
    push_header(&mut req, "Content-Type", content_type);
    push_header(&mut req, "icy-name", name.as_str());
    push_header(&mut req, "icy-description", desc.as_str());
    push_header(&mut req, "icy-url", url.as_str());
    push_header(&mut req, "icy-genre", genre.as_str());
    push_header(&mut req, "icy-bitrate", bitrate.as_str());
    push_header(&mut req, "icy-pub", public);
    push_text(&mut req, "\r\n");
    req
}

/// Shoutcast accepts a source when its reply mentions `ICY 200` or `200 OK`.
pub open spec fn shoutcast_accepts(reply: Seq<char>) -> bool {
    contains_seq(reply, "ICY 200"@) || contains_seq(reply, "200 OK"@)
}

/// Checks the server's reply to the source request: `Ok` when Shoutcast
/// accepted, else the error `Shoutcast rejected connection: <reply>`.
pub fn check_shoutcast_reply(reply: &str) -> (r: Result<(), String>)
    ensures
        shoutcast_accepts(reply@) ==> r is Ok,
        !shoutcast_accepts(reply@) ==> (r matches Err(e) && e@ == "Shoutcast rejected connection: "@ + reply@),
{
    if contains_text(reply, "ICY 200") || contains_text(reply, "200 OK") {
        Ok(())
    } else {
        let mut e = owned("Shoutcast rejected connection: ");
        push_text(&mut e, reply);
        Err(e)
    }
}

/// The Shoutcast source request opens with the line `SOURCE <mount>
/// ICY/1.0`, ends with an empty line, and carries each header on a line of
/// its own with the value taken from its own setting: `Authorization` Basic
/// credentials of an empty user name with the source password,
/// `Content-Type` the codec's type, `icy-name`, `icy-description`,
/// `icy-url` and `icy-genre` the stream name, description, URL and genre
/// with line breaks removed, `icy-bitrate` the bitrate in decimal, `icy-pub`
/// `1` or `0`.
pub proof fn lemma_shoutcast_request(cfg: ServerConfig, content_type: Seq<char>, bitrate_kbps: u32)
    ensures
        ({
            let r = shoutcast_request_text(cfg, content_type, bitrate_kbps);
            &&& starts_with_seq(r, "SOURCE "@ + mount_path(cfg.mount@) + " ICY/1.0\r\n"@)
            &&& has_header(r, "Authorization"@, "Basic "@ + basic_credentials(""@, cfg.source_password@))
            &&& has_header(r, "Content-Type"@, content_type)
            &&& has_header(r, "icy-name"@, without_line_breaks(cfg.stream_name@))
            &&& has_header(r, "icy-description"@, without_line_breaks(cfg.stream_description@))
            &&& has_header(r, "icy-url"@, without_line_breaks(cfg.stream_url@))
            &&& has_header(r, "icy-genre"@, without_line_breaks(cfg.stream_genre@))
            &&& has_header(r, "icy-bitrate"@, decimal(bitrate_kbps as nat))
            &&& has_header(r, "icy-pub"@, if cfg.public { "1"@ } else { "0"@ })
            &&& ends_with_blank_line(r)
        }),
{
    reveal_strlit("\r\n");
    reveal_strlit(" ICY/1.0\r\n");
    let line = "SOURCE "@ + mount_path(cfg.mount@) + " ICY/1.0\r\n"@;
    let tail = " ICY/1.0\r\n"@;
    assert(tail.subrange(tail.len() - 2, tail.len() as int) =~= "\r\n"@);
    lemma_first_line("SOURCE "@ + mount_path(cfg.mount@), tail);
    let va = "Basic "@ + basic_credentials(""@, cfg.source_password@);
    let vn = without_line_breaks(cfg.stream_name@);
    let vd = without_line_breaks(cfg.stream_description@);
    let vu = without_line_breaks(cfg.stream_url@);
    let vg = without_line_breaks(cfg.stream_genre@);
    let vb = decimal(bitrate_kbps as nat);
    let vp = public_flag(cfg.public);
    let p1 = line + header_line("Authorization"@, va);
    let p2 = p1 + header_line("Content-Type"@, content_type);
    let p3 = p2 + header_line("icy-name"@, vn);
    let p4 = p3 + header_line("icy-description"@, vd);
    let p5 = p4 + header_line("icy-url"@, vu);
    let p6 = p5 + header_line("icy-genre"@, vg);
    let p7 = p6 + header_line("icy-bitrate"@, vb);
    let p8 = p7 + header_line("icy-pub"@, vp);
    let r = p8 + "\r\n"@;
    lemma_next_header(line, line, "Authorization"@, va);
    lemma_next_header(p1, line, "Content-Type"@, content_type);
    lemma_next_header(p2, line, "icy-name"@, vn);
    lemma_next_header(p3, line, "icy-description"@, vd);
    lemma_next_header(p4, line, "icy-url"@, vu);
    lemma_next_header(p5, line, "icy-genre"@, vg);
    lemma_next_header(p6, line, "icy-bitrate"@, vb);
    lemma_next_header(p7, line, "icy-pub"@, vp);
    lemma_end_of_headers(p8, line, "\r\n"@);
    assert(r == shoutcast_request_text(cfg, content_type, bitrate_kbps));
}

} // verus!
