//! Decoding and semantic validation of WebAuthn client-data JSON: a strict
//! object decode that extracts the ceremony type, challenge, origin and
//! cross-origin flag, ignores unknown members, and rejects duplicates of the
//! known ones; then exact-match validation against the expected values.

use vstd::prelude::*;
use vstd::string::StringSliceAdditionalSpecFns;
use vstd::utf8::encode_utf8_decode_utf8;
use vstd::utf8::encode_utf8_valid_utf8;
use vstd::utf8::valid_utf8;
use vstd::utf8::decode_utf8;

use crate::base64url::b64url_decode;
use crate::base64url::b64url_decoded;
use crate::error::Error;
use crate::json;
use crate::json::literal_end;
use crate::json::string_at;
use crate::json::value_end;
use crate::json::ws_end;
use crate::json::JSON_MAX_DEPTH;
use crate::text::bytes_as_str;
use crate::text::str_chars;
use crate::text::str_eq;

verus! {

/// The decoded fields of a client-data object, at the specification level.
pub struct ClientDataV {
    pub typ: Seq<char>,
    pub challenge: Seq<char>,
    pub origin: Seq<char>,
    pub cross_origin: bool,
}

/// Partial field assignment while walking the object's members.
pub struct CdFields {
    pub typ: Option<Seq<char>>,
    pub challenge: Option<Seq<char>>,
    pub origin: Option<Seq<char>>,
    pub cross_origin: Option<bool>,
}

/// How one member updates the field assignment: a known key takes a value of
/// its required shape and may appear only once; an unknown key's value is
/// skipped. Yields the updated assignment and the position after the value.
pub open spec fn cd_member_value(
    s: Seq<char>,
    pos: int,
    acc: CdFields,
    key: Seq<char>,
    depth: int,
) -> Option<(CdFields, int)> {
    if key == "type"@ {
        if acc.typ is Some {
            None
        } else {
            match string_at(s, pos) {
                Some(v) => Some((CdFields { typ: Some(v.0), ..acc }, v.1)),
                None => None,
            }
        }
    } else if key == "challenge"@ {
        if acc.challenge is Some {
            None
        } else {
            match string_at(s, pos) {
                Some(v) => Some((CdFields { challenge: Some(v.0), ..acc }, v.1)),
                None => None,
            }
        }
    } else if key == "origin"@ {
        if acc.origin is Some {
            None
        } else {
            match string_at(s, pos) {
                Some(v) => Some((CdFields { origin: Some(v.0), ..acc }, v.1)),
                None => None,
            }
        }
    } else if key == "crossOrigin"@ {
        if acc.cross_origin is Some {
            None
        } else {
            match literal_end(s, pos, "true"@) {
                Some(p) => Some((CdFields { cross_origin: Some(true), ..acc }, p)),
                None => match literal_end(s, pos, "false"@) {
                    Some(p) => Some((CdFields { cross_origin: Some(false), ..acc }, p)),
                    None => None,
                },
            }
        }
    } else {
        match value_end(s, pos, depth) {
            Some(p) => Some((acc, p)),
            None => None,
        }
    }
}

/// Walks the members of the client-data object from the first character of
/// a member key through the closing brace, accumulating the known fields.
pub open spec fn cd_members_at(s: Seq<char>, pos: int, acc: CdFields, depth: int) -> Option<
    (CdFields, int),
>
    decreases s.len() - pos,
    when 0 <= pos <= s.len()
{
    match string_at(s, pos) {
        None => None,
        Some(k) => {
            let p2 = ws_end(s, k.1);
            if !(p2 < s.len() && s[p2] == ':') {
                None
            } else {
                let p3 = ws_end(s, p2 + 1);
                if !(pos < p3 <= s.len()) {
                    None  // unreachable: parsing only moves forward
                } else {
                    match cd_member_value(s, p3, acc, k.0, depth) {
                        None => None,
                        Some(av) => if !(p3 < av.1 <= s.len()) {
                            None  // unreachable: a value is never empty
                        } else {
                            let p5 = ws_end(s, av.1);
                            if p5 < s.len() && s[p5] == '}' {
                                Some((av.0, p5 + 1))
                            } else if p5 < s.len() && s[p5] == ',' {
                                let p6 = ws_end(s, p5 + 1);
                                if !(pos < p6 <= s.len()) {
                                    None  // unreachable: parsing only moves forward
                                } else {
                                    cd_members_at(s, p6, av.0, depth)
                                }
                            } else {
                                None
                            }
                        },
                    }
                }
            }
        },
    }
}

/// The client data decoded from a character sequence: one JSON object with
/// nothing but whitespace around it, holding string members `type`,
/// `challenge` and `origin` (each required, each at most once), an optional
/// boolean `crossOrigin` defaulting to false, and any other members ignored.
pub open spec fn client_data_chars(s: Seq<char>) -> Option<ClientDataV> {
    let p0 = ws_end(s, 0);
    let start = CdFields { typ: None, challenge: None, origin: None, cross_origin: None };
    if !(p0 < s.len() && s[p0] == '{') {
        None
    } else {
        let p1 = ws_end(s, p0 + 1);
        let walked = if p1 < s.len() && s[p1] == '}' {
            Some((start, p1 + 1))
        } else {
            cd_members_at(s, p1, start, JSON_MAX_DEPTH as int)
        };
        match walked {
            None => None,
            Some(fp) => if ws_end(s, fp.1) != s.len() {
                None  // trailing characters after the object
            } else if fp.0.typ is Some && fp.0.challenge is Some && fp.0.origin is Some {
                Some(
                    ClientDataV {
                        typ: fp.0.typ.unwrap(),
                        challenge: fp.0.challenge.unwrap(),
                        origin: fp.0.origin.unwrap(),
                        cross_origin: match fp.0.cross_origin {
                            Some(b) => b,
                            None => false,
                        },
                    },
                )
            } else {
                None  // a required member is missing
            },
        }
    }
}

/// The client data decoded from raw bytes: UTF-8, then the object above.
pub open spec fn client_data_spec(bytes: Seq<u8>) -> Option<ClientDataV> {
    if valid_utf8(bytes) {
        client_data_chars(decode_utf8(bytes))
    } else {
        None
    }
}

/// Parsed client-data JSON from a WebAuthn assertion.
#[derive(Debug)]
pub struct ClientData {
    /// The ceremony type; must be "webauthn.get" for assertions.
    pub typ: String,
    /// Base64url-encoded challenge.
    pub challenge: String,
    /// The origin (scheme + host) the assertion was made from.
    pub origin: String,
    /// Optional cross-origin flag, false if absent.
    pub cross_origin: bool,
}

impl ClientData {
    /// The spec-level view of the parsed fields.
    pub open spec fn view_fields(self) -> ClientDataV {
        ClientDataV {
            typ: self.typ@,
            challenge: self.challenge@,
            origin: self.origin@,
            cross_origin: self.cross_origin,
        }
    }

    /// Parses client-data JSON from raw bytes.
    ///
    /// Succeeds exactly on the inputs `client_data_spec` accepts, and then
    /// returns its fields.
    #[verifier::loop_isolation(false)]
    pub fn parse(data: &[u8]) -> (r: Result<ClientData, Error>)
        ensures
            r is Ok <==> client_data_spec(data@) is Some,
            r matches Ok(cd) ==> client_data_spec(data@) == Some(cd.view_fields()),
            r matches Err(e) ==> e is InvalidClientData,
    {
        let text = match bytes_as_str(data) {
            Some(t) => t,
            None => {
                return Err(Error::InvalidClientData(String::from_str("not valid UTF-8")));
            },
        };
        proof {
            encode_utf8_valid_utf8(text@);
            encode_utf8_decode_utf8(text@);
        }
        let s = str_chars(text);
        let sl = s.as_slice();
        let p0 = json::skip_ws(sl, 0);
        if !(p0 < sl.len() && sl[p0] == '{') {
            return Err(Error::InvalidClientData(String::from_str("expected a JSON object")));
        }
        let p1 = json::skip_ws(sl, p0 + 1);

        let mut typ: Option<String> = None;
        let mut challenge: Option<String> = None;
        let mut origin: Option<String> = None;
        let mut cross_origin: Option<bool> = None;
        let ghost start_fields = CdFields {
            typ: None,
            challenge: None,
            origin: None,
            cross_origin: None,
        };

        let mut end: usize = 0;
        if p1 < sl.len() && sl[p1] == '}' {
            end = p1 + 1;
        } else {
            let mut p = p1;
            let mut done = false;
            while !done
                invariant
                    !done ==> p1 <= p <= sl@.len(),
                    !done ==> cd_members_at(sl@, p1 as int, start_fields, JSON_MAX_DEPTH as int)
                        == cd_members_at(
                        sl@,
                        p as int,
                        cd_fields_of(typ, challenge, origin, cross_origin),
                        JSON_MAX_DEPTH as int,
                    ),
                    done ==> cd_members_at(sl@, p1 as int, start_fields, JSON_MAX_DEPTH as int)
                        == Some((cd_fields_of(typ, challenge, origin, cross_origin), end as int)),
                    done ==> p1 < end <= sl@.len(),
                decreases sl@.len() - p,
            {
                let k = match json::parse_string(sl, p) {
                    Some(k) => k,
                    None => {
                        return Err(Error::InvalidClientData(String::from_str("malformed JSON")));
                    },
                };
                let p2 = json::skip_ws(sl, k.1);
                if !(p2 < sl.len() && sl[p2] == ':') {
                    return Err(Error::InvalidClientData(String::from_str("malformed JSON")));
                }
                let p3 = json::skip_ws(sl, p2 + 1);
                let key = k.0;
                let p4: usize;
                if str_eq(key.as_str(), "type") {
                    if typ.is_some() {
                        return Err(
                            Error::InvalidClientData(String::from_str("duplicate member")),
                        );
                    }
                    match json::parse_string(sl, p3) {
                        Some(v) => {
                            typ = Some(v.0);
                            p4 = v.1;
                        },
                        None => {
                            return Err(
                                Error::InvalidClientData(String::from_str("malformed JSON")),
                            );
                        },
                    }
                } else if str_eq(key.as_str(), "challenge") {
                    if challenge.is_some() {
                        return Err(
                            Error::InvalidClientData(String::from_str("duplicate member")),
                        );
                    }
                    match json::parse_string(sl, p3) {
                        Some(v) => {
                            challenge = Some(v.0);
                            p4 = v.1;
                        },
                        None => {
                            return Err(
                                Error::InvalidClientData(String::from_str("malformed JSON")),
                            );
                        },
                    }
                } else if str_eq(key.as_str(), "origin") {
                    if origin.is_some() {
                        return Err(
                            Error::InvalidClientData(String::from_str("duplicate member")),
                        );
                    }
                    match json::parse_string(sl, p3) {
                        Some(v) => {
                            origin = Some(v.0);
                            p4 = v.1;
                        },
                        None => {
                            return Err(
                                Error::InvalidClientData(String::from_str("malformed JSON")),
                            );
                        },
                    }
                } else if str_eq(key.as_str(), "crossOrigin") {
                    if cross_origin.is_some() {
                        return Err(
                            Error::InvalidClientData(String::from_str("duplicate member")),
                        );
                    }
                    match json::literal_true(sl, p3) {
                        Some(pt) => {
                            cross_origin = Some(true);
                            p4 = pt;
                        },
                        None => match json::literal_false(sl, p3) {
                            Some(pf) => {
                                cross_origin = Some(false);
                                p4 = pf;
                            },
                            None => {
                                return Err(
                                    Error::InvalidClientData(String::from_str("malformed JSON")),
                                );
                            },
                        },
                    }
                } else {
                    match json::skip_value(sl, p3, JSON_MAX_DEPTH) {
                        Some(pv) => {
                            p4 = pv;
                        },
                        None => {
                            return Err(
                                Error::InvalidClientData(String::from_str("malformed JSON")),
                            );
                        },
                    }
                }
                let p5 = json::skip_ws(sl, p4);
                if p5 < sl.len() && sl[p5] == '}' {
                    end = p5 + 1;
                    p = p5 + 1;
                    done = true;
                } else if p5 < sl.len() && sl[p5] == ',' {
                    p = json::skip_ws(sl, p5 + 1);
                } else {
                    return Err(Error::InvalidClientData(String::from_str("malformed JSON")));
                }
            }
        }

        let after = json::skip_ws(sl, end);
        if after != sl.len() {
            return Err(Error::InvalidClientData(String::from_str("trailing characters")));
        }

        let typ = match typ {
            Some(t) => t,
            None => {
                return Err(Error::InvalidClientData(String::from_str("missing member")));
            },
        };
        let challenge = match challenge {
            Some(c) => c,
            None => {
                return Err(Error::InvalidClientData(String::from_str("missing member")));
            },
        };
        let origin = match origin {
            Some(o) => o,
            None => {
                return Err(Error::InvalidClientData(String::from_str("missing member")));
            },
        };
        let cross_origin = match cross_origin {
            Some(b) => b,
            None => false,
        };
        Ok(ClientData { typ, challenge, origin, cross_origin })
    }

    /// Validates the parsed fields against the expected values, in order:
    /// ceremony type, challenge, origin. Succeeds exactly when the type is
    /// the authentication-ceremony literal and challenge and origin match
    /// the expected strings character for character.
    pub fn validate(&self, expected_challenge_b64: &str, expected_origin: &str) -> (r: Result<
        (),
        Error,
    >)
        ensures
            r is Ok <==> (self.typ@ == "webauthn.get"@ && self.challenge@
                == expected_challenge_b64@ && self.origin@ == expected_origin@),
            self.typ@ != "webauthn.get"@ ==> (r matches Err(Error::InvalidClientData(m)) && m@
                == "expected type 'webauthn.get', got '"@ + self.typ@ + "'"@),
            (self.typ@ == "webauthn.get"@ && self.challenge@ != expected_challenge_b64@) ==> r
                == Err::<(), Error>(Error::ChallengeMismatch),
            (self.typ@ == "webauthn.get"@ && self.challenge@ == expected_challenge_b64@
                && self.origin@ != expected_origin@) ==> (r matches Err(
                Error::OriginMismatch { expected, actual },
            ) && expected@ == expected_origin@ && actual@ == self.origin@),
    {
        if !str_eq(self.typ.as_str(), "webauthn.get") {
            let mut m = String::from_str("expected type 'webauthn.get', got '");
            m.append(self.typ.as_str());
            m.append("'");
            return Err(Error::InvalidClientData(m));
        }

        if !str_eq(self.challenge.as_str(), expected_challenge_b64) {
            return Err(Error::ChallengeMismatch);
        }

        if !str_eq(self.origin.as_str(), expected_origin) {
            return Err(
                Error::OriginMismatch {
                    expected: String::from_str(expected_origin),
                    actual: self.origin.clone(),
                },
            );
        }

        Ok(())
    }

    /// Decodes the challenge field from base64url to raw bytes.
    pub fn challenge_bytes(&self) -> (r: Result<Vec<u8>, Error>)
        ensures
            r is Ok <==> b64url_decoded(self.challenge@) is Some,
            r matches Ok(v) ==> b64url_decoded(self.challenge@) == Some(v@),
            r matches Err(e) ==> e is InvalidClientData,
    {
        match b64url_decode(self.challenge.as_str()) {
            Ok(v) => Ok(v),
            Err(e) => {
                let mut m = String::from_str("invalid challenge encoding: ");
                m.append(e.as_str());
                Err(Error::InvalidClientData(m))
            },
        }
    }
}

/// The spec-level field assignment matching four executable option slots.
pub open spec fn cd_fields_of(
    typ: Option<String>,
    challenge: Option<String>,
    origin: Option<String>,
    cross_origin: Option<bool>,
) -> CdFields {
    CdFields {
        typ: match typ {
            Some(t) => Some(t@),
            None => None,
        },
        challenge: match challenge {
            Some(c) => Some(c@),
            None => None,
        },
        origin: match origin {
            Some(o) => Some(o@),
            None => None,
        },
        cross_origin,
    }
}

} // verus!
