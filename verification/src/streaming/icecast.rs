//! The Icecast source handshake: an HTTP/1.0 `PUT` request (or the legacy
//! `SOURCE` request) carrying Basic credentials and the stream description,
//! answered by `100 Continue` or `200 OK`.
use crate::config::ServerConfig;
use crate::streaming::{
    basic_credentials, encode_credentials, ends_with_blank_line, has_header, header_line, lemma_end_of_headers,
    lemma_first_line, lemma_next_header, mount_path, normalize_mount, push_header, starts_with_seq,
};
use crate::text::{contains_seq, contains_text, decimal, owned, push_decimal, push_text,
    strip_line_breaks, without_line_breaks};
use vstd::prelude::*;

verus! {

/// Strips carriage returns and line feeds from a header value so that a
/// configured text cannot inject further header lines.
pub fn escape_header(s: &str) -> (r: String)
    ensures
        r@ == without_line_breaks(s@),
{
    strip_line_breaks(s)
}

/// `"1"` for a public stream, `"0"` otherwise.
pub open spec fn public_flag(public: bool) -> Seq<char> {
    if public {
        "1"@
    } else {
        "0"@
    }
}

/// The request that opens an Icecast source connection. With
/// `legacy_icecast` it is the `SOURCE <mount> ICE/1.0` request with `ice-*`
/// headers; otherwise the Icecast 2 `PUT <mount> HTTP/1.0` request with
/// `Ice-*` headers and `Expect: 100-continue`. Credentials are HTTP Basic
/// with the user name `source`: `source:source_password`; free-text values
/// have line breaks removed.
pub open spec fn icecast_request_text(cfg: ServerConfig, content_type: Seq<char>, bitrate_kbps: u32) -> Seq<char> {
    let mount = mount_path(cfg.mount@);
    let credentials = basic_credentials("source"@, cfg.source_password@);
    let name = without_line_breaks(cfg.stream_name@);
    let url = without_line_breaks(cfg.stream_url@);
    let genre = without_line_breaks(cfg.stream_genre@);
    let desc = without_line_breaks(cfg.stream_description@);
    let bitrate = decimal(bitrate_kbps as nat);
    if cfg.legacy_icecast {
        "SOURCE "@ + mount + " ICE/1.0\r\n"@
            + header_line("Authorization"@, "Basic "@ + credentials)
            + header_line("Content-Type"@, content_type)
            + header_line("User-Agent"@, "Sada/0.1.0"@)
            + header_line("ice-name"@, name)
            + header_line("ice-url"@, url)
            + header_line("ice-genre"@, genre)
            + header_line("ice-bitrate"@, bitrate)
            + header_line("ice-public"@, public_flag(cfg.public))
            + header_line("ice-description"@, desc)
            + "\r\n"@
    } else {
        "PUT "@ + mount + " HTTP/1.0\r\n"@
            + header_line("Host"@, cfg.host@ + ":"@ + decimal(cfg.port as nat))
            + header_line("Authorization"@, "Basic "@ + credentials)
            + header_line("Content-Type"@, content_type)
            + header_line("User-Agent"@, "Sada/0.1.0"@)
            + header_line("Ice-Public"@, public_flag(cfg.public))
            + header_line("Ice-Name"@, name)
            + header_line("Ice-Description"@, desc)
            + header_line("Ice-URL"@, url)
            + header_line("Ice-Genre"@, genre)
            + header_line("Ice-Bitrate"@, bitrate)
            + header_line("Expect"@, "100-continue"@)
            + "\r\n"@
    }
}

fn public_text(public: bool) -> (r: &'static str)
    ensures
        r@ == public_flag(public),
{
    if public {
        "1"
    } else {
        "0"
    }
}

/// Builds the request that opens an Icecast source connection for `cfg`.
pub fn icecast_request(cfg: &ServerConfig, content_type: &str, bitrate_kbps: u32) -> (r: String)
    ensures
        r@ == icecast_request_text(*cfg, content_type@, bitrate_kbps),
{
    let mount = normalize_mount(cfg.mount.as_str());
    let credentials = encode_credentials("source", cfg.source_password.as_str());
    let mut auth = owned("Basic ");
    push_text(&mut auth, credentials.as_str());
    let name = escape_header(cfg.stream_name.as_str());
    let url = escape_header(cfg.stream_url.as_str());
    let genre = escape_header(cfg.stream_genre.as_str());
    let desc = escape_header(cfg.stream_description.as_str());
    let mut bitrate = String::new();
    push_decimal(&mut bitrate, bitrate_kbps as u128);
    assert(bitrate@ =~= decimal(bitrate_kbps as nat));
    let public = public_text(cfg.public);
    let mut req: String;
    if cfg.legacy_icecast {
        req = owned("SOURCE ");
        push_text(&mut req, mount.as_str());
        push_text(&mut req, " ICE/1.0\r\n");
        push_header(&mut req, "Authorization", auth.as_str());
        push_header(&mut req, "Content-Type", content_type);
        push_header(&mut req, "User-Agent", "Sada/0.1.0");
        push_header(&mut req, "ice-name", name.as_str());
        push_header(&mut req, "ice-url", url.as_str());
        push_header(&mut req, "ice-genre", genre.as_str());
        push_header(&mut req, "ice-bitrate", bitrate.as_str());
        push_header(&mut req, "ice-public", public);
        push_header(&mut req, "ice-description", desc.as_str());
        push_text(&mut req, "\r\n");
    } else {
        let mut host = owned(cfg.host.as_str());
        push_text(&mut host, ":");
        push_decimal(&mut host, cfg.port as u128);
        req = owned("PUT ");
        push_text(&mut req, mount.as_str());
        push_text(&mut req, " HTTP/1.0\r\n");
        push_header(&mut req, "Host", host.as_str());
        push_header(&mut req, "Authorization", auth.as_str());
        push_header(&mut req, "Content-Type", content_type);
        push_header(&mut req, "User-Agent", "Sada/0.1.0");
        push_header(&mut req, "Ice-Public", public);
        push_header(&mut req, "Ice-Name", name.as_str());
        push_header(&mut req, "Ice-Description", desc.as_str());
        push_header(&mut req, "Ice-URL", url.as_str());
        push_header(&mut req, "Ice-Genre", genre.as_str());
        push_header(&mut req, "Ice-Bitrate", bitrate.as_str());
        push_header(&mut req, "Expect", "100-continue");
        push_text(&mut req, "\r\n");
    }
    req
}

/// Icecast accepts a source when its reply mentions `100` (Continue) or
/// `200` (OK).
pub open spec fn icecast_accepts(reply: Seq<char>) -> bool {
    contains_seq(reply, "100"@) || contains_seq(reply, "200"@)
}

/// Checks the server's reply to the source request: `Ok` when Icecast
/// accepted, else the error `Icecast rejected connection: <reply>`.
pub fn check_icecast_reply(reply: &str) -> (r: Result<(), String>)
    ensures
        icecast_accepts(reply@) ==> r is Ok,
        !icecast_accepts(reply@) ==> (r matches Err(e) && e@ == "Icecast rejected connection: "@ + reply@),
{
    if contains_text(reply, "100") || contains_text(reply, "200") {
        Ok(())
    } else {
        let mut e = owned("Icecast rejected connection: ");
        push_text(&mut e, reply);
        Err(e)
    }
}

/// The Icecast 2 source request (`legacy_icecast` off) opens with the line
/// `PUT <mount> HTTP/1.0`, ends with an empty line, and carries each header
/// on a line of its own with the value taken from its own setting: `Host`
/// the configured host and port, `Authorization` Basic credentials of the
/// user `source` with the source password, `Content-Type` the codec's type,
/// `Ice-Name`, `Ice-Description`, `Ice-URL` and `Ice-Genre` the stream name,
/// description, URL and genre with line breaks removed, `Ice-Bitrate` the
/// bitrate in decimal, `Ice-Public` `1` or `0`.
pub proof fn lemma_icecast_put_request(cfg: ServerConfig, content_type: Seq<char>, bitrate_kbps: u32)
    requires
        !cfg.legacy_icecast,
    ensures
        ({
            let r = icecast_request_text(cfg, content_type, bitrate_kbps);
            &&& starts_with_seq(r, "PUT "@ + mount_path(cfg.mount@) + " HTTP/1.0\r\n"@)
            &&& has_header(r, "Host"@, cfg.host@ + ":"@ + decimal(cfg.port as nat))
            &&& has_header(r, "Authorization"@, "Basic "@ + basic_credentials("source"@, cfg.source_password@))
            &&& has_header(r, "Content-Type"@, content_type)
            &&& has_header(r, "User-Agent"@, "Sada/0.1.0"@)
            &&& has_header(r, "Ice-Public"@, if cfg.public { "1"@ } else { "0"@ })
            &&& has_header(r, "Ice-Name"@, without_line_breaks(cfg.stream_name@))
            &&& has_header(r, "Ice-Description"@, without_line_breaks(cfg.stream_description@))
            &&& has_header(r, "Ice-URL"@, without_line_breaks(cfg.stream_url@))
            &&& has_header(r, "Ice-Genre"@, without_line_breaks(cfg.stream_genre@))
            &&& has_header(r, "Ice-Bitrate"@, decimal(bitrate_kbps as nat))
            &&& has_header(r, "Expect"@, "100-continue"@)
            &&& ends_with_blank_line(r)
        }),
{
    reveal_strlit("\r\n");
    reveal_strlit(" HTTP/1.0\r\n");
    let line = "PUT "@ + mount_path(cfg.mount@) + " HTTP/1.0\r\n"@;
    let tail = " HTTP/1.0\r\n"@;
    assert(tail.subrange(tail.len() - 2, tail.len() as int) =~= "\r\n"@);
    lemma_first_line("PUT "@ + mount_path(cfg.mount@), tail);
    let v1 = cfg.host@ + ":"@ + decimal(cfg.port as nat);
    let v2 = "Basic "@ + basic_credentials("source"@, cfg.source_password@);
    let v5 = public_flag(cfg.public);
    let v6 = without_line_breaks(cfg.stream_name@);
    let v7 = without_line_breaks(cfg.stream_description@);
    let v8 = without_line_breaks(cfg.stream_url@);
    let v9 = without_line_breaks(cfg.stream_genre@);
    let v10 = decimal(bitrate_kbps as nat);
    let p1 = line + header_line("Host"@, v1);
    let p2 = p1 + header_line("Authorization"@, v2);
    let p3 = p2 + header_line("Content-Type"@, content_type);
    let p4 = p3 + header_line("User-Agent"@, "Sada/0.1.0"@);
    let p5 = p4 + header_line("Ice-Public"@, v5);
    let p6 = p5 + header_line("Ice-Name"@, v6);
    let p7 = p6 + header_line("Ice-Description"@, v7);
    let p8 = p7 + header_line("Ice-URL"@, v8);
    let p9 = p8 + header_line("Ice-Genre"@, v9);
    let p10 = p9 + header_line("Ice-Bitrate"@, v10);
    let p11 = p10 + header_line("Expect"@, "100-continue"@);
    let r = p11 + "\r\n"@;
    lemma_next_header(line, line, "Host"@, v1);
    lemma_next_header(p1, line, "Authorization"@, v2);
    lemma_next_header(p2, line, "Content-Type"@, content_type);
    lemma_next_header(p3, line, "User-Agent"@, "Sada/0.1.0"@);
    lemma_next_header(p4, line, "Ice-Public"@, v5);
    lemma_next_header(p5, line, "Ice-Name"@, v6);
    lemma_next_header(p6, line, "Ice-Description"@, v7);
    lemma_next_header(p7, line, "Ice-URL"@, v8);
    lemma_next_header(p8, line, "Ice-Genre"@, v9);
    lemma_next_header(p9, line, "Ice-Bitrate"@, v10);
    lemma_next_header(p10, line, "Expect"@, "100-continue"@);
    lemma_end_of_headers(p11, line, "\r\n"@);
    assert(r == icecast_request_text(cfg, content_type, bitrate_kbps));
}

/// The legacy Icecast source request (`legacy_icecast` on) opens with the
/// line `SOURCE <mount> ICE/1.0`, ends with an empty line, and carries each
/// header on a line of its own with the value taken from its own setting:
/// `Authorization` Basic credentials of the user `source` with the source
/// password, `Content-Type` the codec's type, `ice-name`, `ice-url`,
/// `ice-genre` and `ice-description` the stream name, URL, genre and
/// description with line breaks removed, `ice-bitrate` the bitrate in
/// decimal, `ice-public` `1` or `0`.
pub proof fn lemma_icecast_source_request(cfg: ServerConfig, content_type: Seq<char>, bitrate_kbps: u32)
    requires
        cfg.legacy_icecast,
    ensures
        ({
            let r = icecast_request_text(cfg, content_type, bitrate_kbps);
            &&& starts_with_seq(r, "SOURCE "@ + mount_path(cfg.mount@) + " ICE/1.0\r\n"@)
            &&& has_header(r, "Authorization"@, "Basic "@ + basic_credentials("source"@, cfg.source_password@))
            &&& has_header(r, "Content-Type"@, content_type)
            &&& has_header(r, "User-Agent"@, "Sada/0.1.0"@)
            &&& has_header(r, "ice-name"@, without_line_breaks(cfg.stream_name@))
            &&& has_header(r, "ice-url"@, without_line_breaks(cfg.stream_url@))
            &&& has_header(r, "ice-genre"@, without_line_breaks(cfg.stream_genre@))
            &&& has_header(r, "ice-bitrate"@, decimal(bitrate_kbps as nat))
            &&& has_header(r, "ice-public"@, if cfg.public { "1"@ } else { "0"@ })
            &&& has_header(r, "ice-description"@, without_line_breaks(cfg.stream_description@))
            &&& ends_with_blank_line(r)
        }),
{
    reveal_strlit("\r\n");
    reveal_strlit(" ICE/1.0\r\n");
    let line = "SOURCE "@ + mount_path(cfg.mount@) + " ICE/1.0\r\n"@;
    let tail = " ICE/1.0\r\n"@;
    assert(tail.subrange(tail.len() - 2, tail.len() as int) =~= "\r\n"@);
    lemma_first_line("SOURCE "@ + mount_path(cfg.mount@), tail);
    let v2 = "Basic "@ + basic_credentials("source"@, cfg.source_password@);
    let vn = without_line_breaks(cfg.stream_name@);
    let vu = without_line_breaks(cfg.stream_url@);
    let vg = without_line_breaks(cfg.stream_genre@);
    let vb = decimal(bitrate_kbps as nat);
    let vp = public_flag(cfg.public);
    let vd = without_line_breaks(cfg.stream_description@);
    let p1 = line + header_line("Authorization"@, v2);
    let p2 = p1 + header_line("Content-Type"@, content_type);
    let p3 = p2 + header_line("User-Agent"@, "Sada/0.1.0"@);
    let p4 = p3 + header_line("ice-name"@, vn);
    let p5 = p4 + header_line("ice-url"@, vu);
    let p6 = p5 + header_line("ice-genre"@, vg);
    let p7 = p6 + header_line("ice-bitrate"@, vb);
    let p8 = p7 + header_line("ice-public"@, vp);
    let p9 = p8 + header_line("ice-description"@, vd);
    let r = p9 + "\r\n"@;
    lemma_next_header(line, line, "Authorization"@, v2);
    lemma_next_header(p1, line, "Content-Type"@, content_type);
    lemma_next_header(p2, line, "User-Agent"@, "Sada/0.1.0"@);
    lemma_next_header(p3, line, "ice-name"@, vn);
    lemma_next_header(p4, line, "ice-url"@, vu);
    lemma_next_header(p5, line, "ice-genre"@, vg);
    lemma_next_header(p6, line, "ice-bitrate"@, vb);
    lemma_next_header(p7, line, "ice-public"@, vp);
    lemma_next_header(p8, line, "ice-description"@, vd);
    lemma_end_of_headers(p9, line, "\r\n"@);
    assert(r == icecast_request_text(cfg, content_type, bitrate_kbps));
}

} // verus!
