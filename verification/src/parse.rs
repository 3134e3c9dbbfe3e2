//! The connection-string form of a descriptor: a `key=value` list separated
//! by semicolons, in the ADO style. Recognized keys, compared without regard
//! to case:
//!
//! - `server` or `data source` — the address, `[tcp:]host[\instance][,port]`:
//!   a host alone dials the default port, `host,port` fixes the port,
//!   `host\instance` names an instance to be found by discovery (recorded
//!   with the browser port unless `,port` fixes one); a host written
//!   `(local)` means `localhost`;
//! - `user id`, `uid`, `user` or `username` — the user name;
//! - `password` or `pwd` — the password;
//! - `encrypt` — `true`/`yes` (required), `false`/`no` (off),
//!   `DANGER_PLAINTEXT` (in exactly that case: no encryption at all), or
//!   `strict`; when the key is absent encryption defaults to required.
//!
//! Unrecognized keys are ignored; a later key — synonyms included —
//! overrides an earlier one; a segment that is not blank must contain `=`.
//! Spaces around keys, values and the parts of an address are trimmed.
//! Values run to the next semicolon: there is no quoting, so a value cannot
//! contain `;`. The host — and the instance, where given — must be
//! non-empty, and a port all-digit and at most 65535. Parsing succeeds
//! exactly when every segment is well formed and some server segment
//! supplies an address.

use vstd::prelude::*;

use crate::chars::find_idx;
use crate::chars::find_char;
use crate::chars::lower;
use crate::chars::parse_u16;
use crate::chars::parse_u16_str;
use crate::chars::str_eq;
use crate::chars::str_eq_ci;
use crate::chars::trim;
use crate::chars::trim_str;
use crate::descriptor::BROWSER_PORT;
use crate::descriptor::DEFAULT_PORT;
use crate::descriptor::Descriptor;
use crate::descriptor::DescriptorView;
use crate::descriptor::EncryptionMode;
use crate::error::Error;
use crate::error::ErrorView;

verus! {

/// Running result of the left-to-right fold over the segments: the fields
/// seen so far, with the host still optional until some `server` segment
/// supplies it.
pub ghost struct AccView {
    pub host: Option<Seq<char>>,
    pub port: u16,
    pub instance: Option<Seq<char>>,
    pub user: Seq<char>,
    pub password: Seq<char>,
    pub encrypt: EncryptionMode,
}

/// The fold's starting point: nothing set, default port, encryption
/// required until something says otherwise.
pub open spec fn acc_init() -> AccView {
    AccView {
        host: None,
        port: DEFAULT_PORT,
        instance: None,
        user: Seq::<char>::empty(),
        password: Seq::<char>::empty(),
        encrypt: EncryptionMode::Required,
    }
}

/// `v` without a leading `tcp:` protocol prefix, if it carries one.
pub open spec fn strip_tcp_prefix(v: Seq<char>) -> Seq<char> {
    if v.len() >= 4 && v[0] == 't' && v[1] == 'c' && v[2] == 'p' && v[3] == ':' {
        v.subrange(4, v.len() as int)
    } else {
        v
    }
}

/// A host written `(local)` means the local machine.
pub open spec fn canon_host(h: Seq<char>) -> Seq<char> {
    if h == "(local)"@ {
        "localhost"@
    } else {
        h
    }
}

/// Reading of the part of a server value before any comma, with the port the
/// comma fixed, if one did. `host\instance` names an instance to be found by
/// discovery — recorded with the browser port when none was fixed — and the
/// instance runs to a second backslash, if any. The host and the instance
/// must be non-empty.
pub open spec fn apply_host_part(first: Seq<char>, port: Option<u16>, acc: AccView) -> Result<
    AccView,
    (),
> {
    match find_idx(first, '\\') {
        Some(j) => {
            let host = trim(first.subrange(0, j));
            let after = first.subrange(j + 1, first.len() as int);
            let inst = trim(
                match find_idx(after, '\\') {
                    Some(k) => after.subrange(0, k),
                    None => after,
                },
            );
            if host.len() > 0 && inst.len() > 0 {
                Ok(AccView {
                    host: Some(canon_host(host)),
                    instance: Some(inst),
                    port: match port {
                        Some(p) => p,
                        None => BROWSER_PORT,
                    },
                    ..acc
                })
            } else {
                Err(())
            }
        },
        None => {
            let host = trim(first);
            if host.len() > 0 {
                Ok(AccView {
                    host: Some(canon_host(host)),
                    instance: None,
                    port: match port {
                        Some(p) => p,
                        None => DEFAULT_PORT,
                    },
                    ..acc
                })
            } else {
                Err(())
            }
        },
    }
}

/// Reading of a (trimmed) server value onto the accumulator: an optional
/// `tcp:` prefix, then the address, then at most one comma fixing an
/// all-digit port of at most 65535; anything else is a configuration error.
pub open spec fn parse_server(val: Seq<char>, acc: AccView) -> Result<AccView, ()> {
    let v = strip_tcp_prefix(val);
    match find_idx(v, ',') {
        Some(i) => {
            let first = v.subrange(0, i);
            let rest = v.subrange(i + 1, v.len() as int);
            if find_idx(rest, ',') is Some {
                Err(())
            } else {
                match parse_u16(trim(rest)) {
                    Some(p) => apply_host_part(first, Some(p), acc),
                    None => Err(()),
                }
            }
        },
        None => apply_host_part(v, None, acc),
    }
}

/// Reading of a (trimmed) `encrypt` value onto the accumulator. The boolean
/// words are read without regard to case, `DANGER_PLAINTEXT` only in exactly
/// that spelling.
pub open spec fn parse_encrypt(val: Seq<char>, acc: AccView) -> Result<AccView, ()> {
    if lower(val) == "true"@ || lower(val) == "yes"@ {
        Ok(AccView { encrypt: EncryptionMode::Required, ..acc })
    } else if lower(val) == "false"@ || lower(val) == "no"@ {
        Ok(AccView { encrypt: EncryptionMode::Off, ..acc })
    } else if val == "DANGER_PLAINTEXT"@ {
        Ok(AccView { encrypt: EncryptionMode::NotSupported, ..acc })
    } else if lower(val) == "strict"@ {
        Ok(AccView { encrypt: EncryptionMode::Strict, ..acc })
    } else {
        Err(())
    }
}

/// Reading of one semicolon-separated segment onto the accumulator: blank
/// segments are skipped, any other segment must be `key=value`.
pub open spec fn apply_segment(seg: Seq<char>, acc: AccView) -> Result<AccView, ()> {
    match find_idx(seg, '=') {
        None => if trim(seg).len() == 0 {
            Ok(acc)
        } else {
            Err(())
        },
        Some(i) => {
            let key = lower(trim(seg.subrange(0, i)));
            let val = trim(seg.subrange(i + 1, seg.len() as int));
            if key == "server"@ || key == "data source"@ {
                parse_server(val, acc)
            } else if key == "user id"@ || key == "uid"@ || key == "user"@ || key
                == "username"@ {
                Ok(AccView { user: val, ..acc })
            } else if key == "password"@ || key == "pwd"@ {
                Ok(AccView { password: val, ..acc })
            } else if key == "encrypt"@ {
                parse_encrypt(val, acc)
            } else {
                Ok(acc)
            }
        },
    }
}

/// The left-to-right fold of [`apply_segment`] over the semicolon-separated
/// segments of `s`.
pub open spec fn parse_rest(s: Seq<char>, acc: AccView) -> Result<AccView, ()>
    decreases s.len(),
    via parse_rest_decreases
{
    match find_idx(s, ';') {
        None => apply_segment(s, acc),
        Some(i) => match apply_segment(s.subrange(0, i), acc) {
            Err(e) => Err(e),
            Ok(a2) => parse_rest(s.subrange(i + 1, s.len() as int), a2),
        },
    }
}

/// A found separator index lies inside the sequence.
pub proof fn lemma_find_idx_bounds(s: Seq<char>, c: char)
    ensures
        match find_idx(s, c) {
            Some(i) => 0 <= i < s.len(),
            None => true,
        },
    decreases s.len(),
{
    if s.len() > 0 && s[0] != c {
        lemma_find_idx_bounds(s.drop_first(), c);
    }
}

#[via_fn]
proof fn parse_rest_decreases(s: Seq<char>, acc: AccView) {
    lemma_find_idx_bounds(s, ';');
}

/// What a whole connection string means: the fold over its segments, closed
/// by the demand that some segment supplied the server address.
pub open spec fn parse_ado(s: Seq<char>) -> Result<DescriptorView, ()> {
    match parse_rest(s, acc_init()) {
        Err(e) => Err(e),
        Ok(a) => match a.host {
            None => Err(()),
            Some(h) => Ok(DescriptorView {
                host: h,
                port: a.port,
                instance: a.instance,
                user: a.user,
                password: a.password,
                encrypt: a.encrypt,
            }),
        },
    }
}

/// Exec twin of [`AccView`].
struct Acc {
    host: Option<String>,
    port: u16,
    instance: Option<String>,
    user: String,
    password: String,
    encrypt: EncryptionMode,
}

impl View for Acc {
    type V = AccView;

    closed spec fn view(&self) -> AccView {
        AccView {
            host: match self.host {
                Some(ref h) => Some(h@),
                None => None,
            },
            port: self.port,
            instance: match self.instance {
                Some(ref i) => Some(i@),
                None => None,
            },
            user: self.user@,
            password: self.password@,
            encrypt: self.encrypt,
        }
    }
}

fn canon_host_str(h: &str) -> (r: String)
    ensures
        r@ == canon_host(h@),
{
    if str_eq(h, "(local)") {
        "localhost".to_owned()
    } else {
        h.to_owned()
    }
}

fn host_part_str(first: &str, port: Option<u16>, acc: Acc) -> (r: Result<Acc, Error>)
    ensures
        ({
            let sp = apply_host_part(first@, port, acc@);
            match r {
                Ok(a) => sp matches Ok(v) && a@ == v,
                Err(e) => sp is Err && e@ is Config,
            }
        }),
{
    let n = first.unicode_len();
    match find_char(first, '\\') {
        Some(j) => {
            let host = trim_str(first.substring_char(0, j));
            let after = first.substring_char(j + 1, n);
            let inst = trim_str(
                match find_char(after, '\\') {
                    Some(k) => after.substring_char(0, k),
                    None => after,
                },
            );
            if host.unicode_len() > 0 && inst.unicode_len() > 0 {
                let p = match port {
                    Some(p) => p,
                    None => BROWSER_PORT,
                };
                Ok(Acc {
                    host: Some(canon_host_str(host)),
                    instance: Some(inst.to_owned()),
                    port: p,
                    ..acc
                })
            } else {
                Err(Error::Config("server address needs host\\instance".to_owned()))
            }
        },
        None => {
            let host = trim_str(first);
            if host.unicode_len() > 0 {
                let p = match port {
                    Some(p) => p,
                    None => DEFAULT_PORT,
                };
                Ok(Acc { host: Some(canon_host_str(host)), instance: None, port: p, ..acc })
            } else {
                Err(Error::Config("server address is empty".to_owned()))
            }
        },
    }
}

fn parse_server_str(val: &str, acc: Acc) -> (r: Result<Acc, Error>)
    ensures
        ({
            let sp = parse_server(val@, acc@);
            match r {
                Ok(a) => sp matches Ok(v) && a@ == v,
                Err(e) => sp is Err && e@ is Config,
            }
        }),
{
    let n = val.unicode_len();
    let v: &str = if n >= 4 && val.get_char(0) == 't' && val.get_char(1) == 'c'
        && val.get_char(2) == 'p' && val.get_char(3) == ':' {
        val.substring_char(4, n)
    } else {
        val
    };
    proof {
        assert(v@ == strip_tcp_prefix(val@));
    }
    let m = v.unicode_len();
    match find_char(v, ',') {
        Some(i) => {
            let first = v.substring_char(0, i);
            let rest = v.substring_char(i + 1, m);
            match find_char(rest, ',') {
                Some(_) => Err(Error::Config("server address has too many commas".to_owned())),
                None => match parse_u16_str(trim_str(rest)) {
                    Some(p) => host_part_str(first, Some(p), acc),
                    None => Err(Error::Config("server port is not a number".to_owned())),
                },
            }
        },
        None => host_part_str(v, None, acc),
    }
}

fn parse_encrypt_str(val: &str, acc: Acc) -> (r: Result<Acc, Error>)
    ensures
        ({
            let sp = parse_encrypt(val@, acc@);
            match r {
                Ok(a) => sp matches Ok(v) && a@ == v,
                Err(e) => sp is Err && e@ is Config,
            }
        }),
{
    if str_eq_ci(val, "true") || str_eq_ci(val, "yes") {
        Ok(Acc { encrypt: EncryptionMode::Required, ..acc })
    } else if str_eq_ci(val, "false") || str_eq_ci(val, "no") {
        Ok(Acc { encrypt: EncryptionMode::Off, ..acc })
    } else if str_eq(val, "DANGER_PLAINTEXT") {
        Ok(Acc { encrypt: EncryptionMode::NotSupported, ..acc })
    } else if str_eq_ci(val, "strict") {
        Ok(Acc { encrypt: EncryptionMode::Strict, ..acc })
    } else {
        Err(Error::Config("encrypt must be a boolean, DANGER_PLAINTEXT or strict".to_owned()))
    }
}

fn apply_segment_str(seg: &str, acc: Acc) -> (r: Result<Acc, Error>)
    ensures
        ({
            let sp = apply_segment(seg@, acc@);
            match r {
                Ok(a) => sp matches Ok(v) && a@ == v,
                Err(e) => sp is Err && e@ is Config,
            }
        }),
{
    match find_char(seg, '=') {
        None => {
            let t = trim_str(seg);
            if t.unicode_len() == 0 {
                Ok(acc)
            } else {
                Err(Error::Config("a segment must be blank or key=value".to_owned()))
            }
        },
        Some(i) => {
            let n = seg.unicode_len();
            let keypart = trim_str(seg.substring_char(0, i));
            let val = trim_str(seg.substring_char(i + 1, n));
            if str_eq_ci(keypart, "server") || str_eq_ci(keypart, "data source") {
                parse_server_str(val, acc)
            } else if str_eq_ci(keypart, "user id") || str_eq_ci(keypart, "uid")
                || str_eq_ci(keypart, "user") || str_eq_ci(keypart, "username") {
                Ok(Acc { user: val.to_owned(), ..acc })
            } else if str_eq_ci(keypart, "password") || str_eq_ci(keypart, "pwd") {
                Ok(Acc { password: val.to_owned(), ..acc })
            } else if str_eq_ci(keypart, "encrypt") {
                parse_encrypt_str(val, acc)
            } else {
                Ok(acc)
            }
        },
    }
}

fn parse_rest_str(s: &str, acc: Acc) -> (r: Result<Acc, Error>)
    ensures
        ({
            let sp = parse_rest(s@, acc@);
            match r {
                Ok(a) => sp matches Ok(v) && a@ == v,
                Err(e) => sp is Err && e@ is Config,
            }
        }),
    decreases s@.len(),
{
    match find_char(s, ';') {
        None => apply_segment_str(s, acc),
        Some(i) => {
            let n = s.unicode_len();
            let seg = s.substring_char(0, i);
            match apply_segment_str(seg, acc) {
                Err(e) => Err(e),
                Ok(a2) => parse_rest_str(s.substring_char(i + 1, n), a2),
            }
        },
    }
}

/// Builds a descriptor from a connection string. Succeeds exactly when the
/// string parses — see [`parse_ado`] — and in particular only when a
/// `server` segment supplies a non-empty address; every failure is a
/// [`Error::Config`].
pub fn from_ado_string(s: &str) -> (r: Result<Descriptor, Error>)
    ensures
        match r {
            Ok(d) => parse_ado(s@) matches Ok(v) && d@ == v,
            Err(e) => parse_ado(s@) is Err && e@ is Config,
        },
{
    let acc = Acc {
        host: None,
        port: DEFAULT_PORT,
        instance: None,
        user: String::new(),
        password: String::new(),
        encrypt: EncryptionMode::Required,
    };
    match parse_rest_str(s, acc) {
        Err(e) => Err(e),
        Ok(a) => match a {
            Acc { host: Some(h), port, instance, user, password, encrypt } => Ok(Descriptor {
                host: h,
                port,
                instance,
                user,
                password,
                encrypt,
            }),
            Acc { host: None, .. } => Err(
                Error::Config("connection string names no server address".to_owned()),
            ),
        },
    }
}

/// A parsed descriptor never carries an empty host: the only way the fold
/// records a host is a `server` segment whose (trimmed) address is
/// non-empty.
pub proof fn lemma_parse_ok_has_host(s: Seq<char>)
    ensures
        parse_ado(s) matches Ok(v) ==> v.host.len() > 0,
{
    lemma_rest_keeps_host(s, acc_init());
}

/// Helper for [`lemma_parse_ok_has_host`]: the fold preserves "the recorded
/// host, if any, is non-empty".
proof fn lemma_rest_keeps_host(s: Seq<char>, acc: AccView)
    requires
        acc.host matches Some(h) ==> h.len() > 0,
    ensures
        parse_rest(s, acc) matches Ok(a) ==> (a.host matches Some(h) ==> h.len() > 0),
    decreases s.len(),
{
    lemma_find_idx_bounds(s, ';');
    match find_idx(s, ';') {
        None => lemma_segment_keeps_host(s, acc),
        Some(i) => {
            lemma_segment_keeps_host(s.subrange(0, i), acc);
            match apply_segment(s.subrange(0, i), acc) {
                Err(_) => (),
                Ok(a2) => lemma_rest_keeps_host(s.subrange(i + 1, s.len() as int), a2),
            }
        },
    }
}

/// Helper: one segment preserves "the recorded host, if any, is non-empty";
/// a server segment only records a non-empty host, also where `(local)`
/// reads as `localhost`.
proof fn lemma_segment_keeps_host(seg: Seq<char>, acc: AccView)
    requires
        acc.host matches Some(h) ==> h.len() > 0,
    ensures
        apply_segment(seg, acc) matches Ok(a) ==> (a.host matches Some(h) ==> h.len() > 0),
{
    reveal_strlit("localhost");
}

} // verus!
