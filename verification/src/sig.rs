//! The `Signature` request header and the signature verifier.
//!
//! An inbound request carries a header of the form
//! `keyId="<url>",headers="<space-separated names>",signature="<base64>"`.
//! Verification resolves the signer's public key (the network fetch is
//! the caller's), rebuilds the canonical signing string from the
//! declared headers — always including `date` — and checks the
//! RSA-SHA256 signature against it.

use vstd::prelude::*;

use crate::json::json_parses;
use crate::parser::{HeaderParseError, pair_views, string_views, sig_fields, header_list};
use crate::text::{lower, join_with, trim};

verus! {

/// The parsed `Signature` header: who signed, which headers were
/// declared as signed, and the raw signature bytes.
#[derive(Debug)]
pub struct Signature {
    pub key_id: String,
    pub headers: Vec<String>,
    pub signature: Vec<u8>,
}

/// A zero-data witness that one request's signature has been verified.
/// It is never persisted and lives only for the request it attests to.
#[derive(Debug)]
pub struct ValidSignature {}

/// The three fields a `Signature` header must carry.
#[derive(Debug, Clone, Copy, PartialEq, Eq, Structural)]
pub enum SigField {
    KeyId,
    Headers,
    SignatureValue,
}

/// Why a `Signature` header value could not become a [`Signature`].
#[derive(Debug, Clone, Copy, PartialEq, Eq, Structural)]
pub enum SignatureHeaderError {
    /// The header text does not follow the `key="value"` grammar.
    Parse(HeaderParseError),
    /// A required field is absent.
    MissingField(SigField),
    /// The `signature` field is not valid base64.
    BadBase64,
}

/// Why a parsed signature failed to verify.
#[derive(Debug, Clone, PartialEq, Eq)]
pub enum VerifyError {
    /// A declared (or implied `date`) header has no value in the
    /// request; carries the lowercased header name.
    MissingHeader(String),
    /// The actor document could not be fetched; carries the fetcher's
    /// reason. Produced by the caller that performs the network fetch.
    KeyResolutionFailed(String),
    /// The actor document is not JSON or lacks a string
    /// `publicKey.publicKeyPem` member.
    MalformedActorDocument,
    /// The PEM text does not yield a usable RSA public key.
    MalformedPublicKey,
    /// The request is well-formed but the signature is not authentic.
    SignatureMismatch,
}

/// What `base64::decode` returns for a text: the decoded bytes, or
/// `None` where the text is not valid standard base64.
pub uninterp spec fn base64_decoded(s: Seq<char>) -> Option<Seq<u8>>;

/// Relies on `base64::decode` (standard alphabet): the outcome
/// depends on the input text alone.
#[verifier::external_body]
fn base64_decode(s: &str) -> (r: Option<Vec<u8>>)
    ensures
        match r {
            Some(v) => base64_decoded(s@) == Some(v@),
            None => base64_decoded(s@) is None,
        },
{
    base64::decode(s).ok()
}

/// The value under `key` among parsed fields, later pairs shadowing
/// earlier ones, as inserting into a map would.
pub open spec fn field_lookup(fields: Seq<(Seq<char>, Seq<char>)>, key: Seq<char>) -> Option<
    Seq<char>,
>
    decreases fields.len(),
{
    if fields.len() == 0 {
        None
    } else if fields.last().0 == key {
        Some(fields.last().1)
    } else {
        field_lookup(fields.drop_last(), key)
    }
}

fn find_field<'a>(fields: &'a Vec<(String, String)>, key: &str) -> (r: Option<&'a String>)
    ensures
        match r {
            Some(v) => field_lookup(pair_views(fields@), key@) == Some(v@),
            None => field_lookup(pair_views(fields@), key@) is None,
        },
{
    let ghost views = pair_views(fields@);
    let mut i: usize = fields.len();
    proof {
        assert(views.take(fields@.len() as int) =~= views);
    }
    while i > 0
        invariant
            i <= fields.len(),
            views == pair_views(fields@),
            field_lookup(views, key@) == field_lookup(views.take(i as int), key@),
        decreases i,
    {
        i = i - 1;
        proof {
            assert(views.take(i + 1).last() == views[i as int]);
            assert(views.take(i + 1).drop_last() =~= views.take(i as int));
        }
        if crate::text::str_eq(fields[i].0.as_str(), key) {
            return Some(&fields[i].1);
        }
    }
    proof {
        assert(views.take(0) =~= Seq::<(Seq<char>, Seq<char>)>::empty());
    }
    None
}

impl Signature {
    /// Parses a `Signature` header value: tokenizes the fields,
    /// requires `keyId`, `headers` and `signature` (in that order of
    /// complaint), tokenizes the declared header list, and decodes the
    /// signature from base64.
    pub fn from_str(s: &str) -> (r: Result<Signature, SignatureHeaderError>)
        ensures
            match sig_fields(s@) {
                Err(e) => r == Err::<Signature, _>(SignatureHeaderError::Parse(e)),
                Ok(fields) => match field_lookup(fields, "keyId"@) {
                    None => r == Err::<Signature, _>(
                        SignatureHeaderError::MissingField(SigField::KeyId),
                    ),
                    Some(kid) => match field_lookup(fields, "headers"@) {
                        None => r == Err::<Signature, _>(
                            SignatureHeaderError::MissingField(SigField::Headers),
                        ),
                        Some(hs) => match field_lookup(fields, "signature"@) {
                            None => r == Err::<Signature, _>(
                                SignatureHeaderError::MissingField(SigField::SignatureValue),
                            ),
                            Some(sb) => match base64_decoded(sb) {
                                None => r == Err::<Signature, _>(SignatureHeaderError::BadBase64),
                                Some(bytes) => r matches Ok(sig) && sig.key_id@ == kid
                                    && string_views(sig.headers@) == header_list(hs)
                                    && sig.signature@ == bytes,
                            },
                        },
                    },
                },
            },
    {
        let fields = match crate::parser::sig(s) {
            Ok(fields) => fields,
            Err(e) => {
                return Err(SignatureHeaderError::Parse(e));
            },
        };
        let key_id = match find_field(&fields, "keyId") {
            Some(text) => text.clone(),
            None => {
                return Err(SignatureHeaderError::MissingField(SigField::KeyId));
            },
        };
        let headers = match find_field(&fields, "headers") {
            Some(text) => match crate::parser::sig_headers(text.as_str()) {
                Ok(headers) => headers,
                Err(e) => {
                    return Err(SignatureHeaderError::Parse(e));
                },
            },
            None => {
                return Err(SignatureHeaderError::MissingField(SigField::Headers));
            },
        };
        let signature = match find_field(&fields, "signature") {
            Some(text) => match base64_decode(text.as_str()) {
                Some(bytes) => bytes,
                None => {
                    return Err(SignatureHeaderError::BadBase64);
                },
            },
            None => {
                return Err(SignatureHeaderError::MissingField(SigField::SignatureValue));
            },
        };
        Ok(Signature { key_id, headers, signature })
    }
}

/// The declared header list, extended with `date` unless some declared
/// name already lowercases to `date`. This defends against a signer
/// omitting replay-sensitive headers from the signed set.
pub open spec fn with_date(names: Seq<Seq<char>>) -> Seq<Seq<char>> {
    if exists|i: int| 0 <= i < names.len() && lower(names[i]) == "date"@ {
        names
    } else {
        names.push("date"@)
    }
}

/// Law: whatever header list a signer declares, the list the verifier
/// actually checks contains the `date` header (case-insensitively).
pub proof fn lemma_with_date_has_date(names: Seq<Seq<char>>)
    ensures
        exists|i: int|
            0 <= i < with_date(names).len() && lower(with_date(names)[i]) == "date"@,
{
    if exists|i: int| 0 <= i < names.len() && lower(names[i]) == "date"@ {
        let i = choose|i: int| 0 <= i < names.len() && lower(names[i]) == "date"@;
        assert(lower(with_date(names)[i]) == "date"@);
    } else {
        reveal_strlit("date");
        let j = names.len() as int;
        assert(with_date(names)[j] == "date"@);
        assert(lower("date"@) =~= "date"@);
        assert(lower(with_date(names)[j]) == "date"@);
    }
}

fn ensure_date(names: &Vec<String>) -> (r: Vec<String>)
    ensures
        string_views(r@) == with_date(string_views(names@)),
{
    let ghost views = string_views(names@);
    let mut found = false;
    let mut i: usize = 0;
    while i < names.len()
        invariant
            i <= names.len(),
            views == string_views(names@),
            found <==> exists|j: int| 0 <= j < i && lower(views[j]) == "date"@,
        decreases names.len() - i,
    {
        if crate::text::lower_eq(names[i].as_str(), "date") {
            found = true;
            proof {
                assert(lower(views[i as int]) == "date"@);
            }
        }
        i = i + 1;
    }
    let mut out: Vec<String> = Vec::new();
    let mut k: usize = 0;
    while k < names.len()
        invariant
            k <= names.len(),
            views == string_views(names@),
            out@.len() == k,
            forall|j: int| 0 <= j < k ==> out@[j]@ == views[j],
        decreases names.len() - k,
    {
        let copied = String::from_str(names[k].as_str());
        out.push(copied);
        k = k + 1;
    }
    if !found {
        out.push("date".to_owned());
        proof {
            assert(string_views(out@) =~= views.push("date"@));
        }
    } else {
        proof {
            assert(string_views(out@) =~= views);
        }
    }
    out
}

/// The trimmed values of every request header whose name lowercases to
/// `name`, in request order.
pub open spec fn matching_values(
    headers: Seq<(Seq<char>, Seq<char>)>,
    name: Seq<char>,
) -> Seq<Seq<char>>
    decreases headers.len(),
{
    if headers.len() == 0 {
        Seq::empty()
    } else {
        let rest = matching_values(headers.drop_last(), name);
        if lower(headers.last().0) == name {
            rest.push(trim(headers.last().1))
        } else {
            rest
        }
    }
}

/// One line of the canonical signing string for the lowercased header
/// name `name`: the pseudo-header `(request-target)` describes the
/// request line; any other name stands for the matching header values
/// joined with a comma, or fails as missing when there are none.
pub open spec fn canonical_line(
    name: Seq<char>,
    method: Seq<char>,
    path: Seq<char>,
    headers: Seq<(Seq<char>, Seq<char>)>,
) -> Result<Seq<char>, Seq<char>> {
    if name == "(request-target)"@ {
        Ok(name + ": "@ + lower(method) + " "@ + path)
    } else {
        let vals = matching_values(headers, name);
        if vals.len() == 0 {
            Err(name)
        } else {
            Ok(name + ": "@ + join_with(vals, ", "@))
        }
    }
}

/// The canonical lines for the declared names in order, or the first
/// missing (lowercased) header name.
pub open spec fn canonical_lines(
    names: Seq<Seq<char>>,
    method: Seq<char>,
    path: Seq<char>,
    headers: Seq<(Seq<char>, Seq<char>)>,
) -> Result<Seq<Seq<char>>, Seq<char>>
    decreases names.len(),
{
    if names.len() == 0 {
        Ok(Seq::empty())
    } else {
        match canonical_line(lower(names.first()), method, path, headers) {
            Err(e) => Err(e),
            Ok(line) => match canonical_lines(names.drop_first(), method, path, headers) {
                Err(e) => Err(e),
                Ok(rest) => Ok(rest.insert(0, line)),
            },
        }
    }
}

/// The canonical signing string over the given header names: the
/// canonical lines joined with a newline, no trailing newline; or the
/// first missing header name.
pub open spec fn comparison_string(
    names: Seq<Seq<char>>,
    method: Seq<char>,
    path: Seq<char>,
    headers: Seq<(Seq<char>, Seq<char>)>,
) -> Result<Seq<char>, Seq<char>> {
    match canonical_lines(names, method, path, headers) {
        Err(e) => Err(e),
        Ok(lines) => Ok(join_with(lines, "\n"@)),
    }
}

proof fn lemma_canonical_lines_index(
    names: Seq<Seq<char>>,
    method: Seq<char>,
    path: Seq<char>,
    headers: Seq<(Seq<char>, Seq<char>)>,
)
    requires
        canonical_lines(names, method, path, headers) is Ok,
    ensures
        canonical_lines(names, method, path, headers)->Ok_0.len() == names.len(),
        forall|i: int|
            0 <= i < names.len() ==> canonical_line(lower(names[i]), method, path, headers)
                == Ok::<Seq<char>, Seq<char>>(
                canonical_lines(names, method, path, headers)->Ok_0[i],
            ),
    decreases names.len(),
{
    if names.len() > 0 {
        let rest = names.drop_first();
        lemma_canonical_lines_index(rest, method, path, headers);
        let lines = canonical_lines(names, method, path, headers)->Ok_0;
        let rest_lines = canonical_lines(rest, method, path, headers)->Ok_0;
        let first_line = canonical_line(lower(names.first()), method, path, headers)->Ok_0;
        rest_lines.insert_ensures(0, first_line);
        assert forall|i: int|
            0 <= i < names.len() implies canonical_line(lower(names[i]), method, path, headers)
            == Ok::<Seq<char>, Seq<char>>(lines[i]) by {
            if i > 0 {
                assert(rest[i - 1] == names[i]);
                assert(lines[i] == rest_lines[i - 1]);
            }
        }
    }
}

/// Law: whenever the canonical signing string is built at all, one of
/// its lines is the `date` line — the trimmed `date` values of the
/// request, comma-joined — whether or not the signer declared `date`.
pub proof fn lemma_canonical_string_has_date_line(
    names: Seq<Seq<char>>,
    method: Seq<char>,
    path: Seq<char>,
    headers: Seq<(Seq<char>, Seq<char>)>,
)
    requires
        canonical_lines(with_date(names), method, path, headers) is Ok,
    ensures
        canonical_lines(with_date(names), method, path, headers) matches Ok(lines)
            && exists|i: int|
            0 <= i < lines.len() && lines[i] == "date: "@ + join_with(
                matching_values(headers, "date"@),
                ", "@,
            ),
{
    let wd = with_date(names);
    lemma_with_date_has_date(names);
    let j = choose|j: int| 0 <= j < wd.len() && lower(wd[j]) == "date"@;
    lemma_canonical_lines_index(wd, method, path, headers);
    let lines = canonical_lines(wd, method, path, headers)->Ok_0;
    reveal_strlit("date");
    reveal_strlit("(request-target)");
    reveal_strlit("date: ");
    reveal_strlit(": ");
    assert("date"@ != "(request-target)"@);
    assert(canonical_line("date"@, method, path, headers) == Ok::<Seq<char>, Seq<char>>(
        lines[j],
    ));
    assert("date"@ + ": "@ =~= "date: "@);
    assert(lines[j] == "date: "@ + join_with(matching_values(headers, "date"@), ", "@));
}

proof fn lemma_lines_err_on_missing_date(
    names: Seq<Seq<char>>,
    method: Seq<char>,
    path: Seq<char>,
    headers: Seq<(Seq<char>, Seq<char>)>,
)
    requires
        matching_values(headers, "date"@).len() == 0,
        forall|i: int|
            0 <= i < names.len() ==> (lower(names[i]) == "(request-target)"@ || lower(names[i])
                == "date"@ || matching_values(headers, lower(names[i])).len() > 0),
        exists|i: int| 0 <= i < names.len() && lower(names[i]) == "date"@,
    ensures
        canonical_lines(names, method, path, headers) == Err::<Seq<Seq<char>>, Seq<char>>(
            "date"@,
        ),
    decreases names.len(),
{
    reveal_strlit("date");
    reveal_strlit("(request-target)");
    let k = choose|i: int| 0 <= i < names.len() && lower(names[i]) == "date"@;
    let n0 = lower(names.first());
    if n0 == "date"@ {
        assert("date"@ != "(request-target)"@);
        assert(canonical_line(n0, method, path, headers) == Err::<Seq<char>, Seq<char>>(
            "date"@,
        ));
    } else {
        let rest = names.drop_first();
        assert(k > 0);
        assert(0 <= k - 1 < rest.len() && lower(rest[k - 1]) == "date"@);
        assert forall|i: int|
            0 <= i < rest.len() implies (lower(rest[i]) == "(request-target)"@ || lower(rest[i])
            == "date"@ || matching_values(headers, lower(rest[i])).len() > 0) by {
            assert(rest[i] == names[i + 1]);
        }
        lemma_lines_err_on_missing_date(rest, method, path, headers);
        assert(canonical_line(n0, method, path, headers) is Ok);
    }
}

/// Law: a request carrying no `date` header cannot be verified. When
/// every other declared header resolves in the request, the failure
/// names `date` itself, whether or not the signer declared it.
pub proof fn lemma_missing_date_is_reported(
    names: Seq<Seq<char>>,
    method: Seq<char>,
    path: Seq<char>,
    headers: Seq<(Seq<char>, Seq<char>)>,
)
    requires
        matching_values(headers, "date"@).len() == 0,
        forall|i: int|
            0 <= i < names.len() ==> (lower(names[i]) == "(request-target)"@ || lower(names[i])
                == "date"@ || matching_values(headers, lower(names[i])).len() > 0),
    ensures
        comparison_string(with_date(names), method, path, headers) == Err::<Seq<char>, Seq<char>>(
            "date"@,
        ),
{
    let wd = with_date(names);
    lemma_with_date_has_date(names);
    reveal_strlit("date");
    assert(lower("date"@) =~= "date"@);
    assert forall|i: int|
        0 <= i < wd.len() implies (lower(wd[i]) == "(request-target)"@ || lower(wd[i]) == "date"@
        || matching_values(headers, lower(wd[i])).len() > 0) by {
        if i < names.len() {
            assert(wd[i] == names[i]);
        } else {
            assert(wd[i] == "date"@);
        }
    }
    lemma_lines_err_on_missing_date(wd, method, path, headers);
}

fn collect_matching(headers: &Vec<(String, String)>, name: &str) -> (r: Vec<String>)
    ensures
        string_views(r@) == matching_values(pair_views(headers@), name@),
{
    let ghost views = pair_views(headers@);
    let mut out: Vec<String> = Vec::new();
    let mut i: usize = 0;
    proof {
        assert(views.take(0) =~= Seq::<(Seq<char>, Seq<char>)>::empty());
    }
    while i < headers.len()
        invariant
            i <= headers.len(),
            views == pair_views(headers@),
            string_views(out@) == matching_values(views.take(i as int), name@),
        decreases headers.len() - i,
    {
        let ghost pre_out = string_views(out@);
        proof {
            assert(views.take(i + 1).drop_last() =~= views.take(i as int));
            assert(views.take(i + 1).last() == views[i as int]);
        }
        if crate::text::lower_eq(headers[i].0.as_str(), name) {
            let trimmed = crate::text::trim_str(headers[i].1.as_str());
            out.push(trimmed);
            proof {
                assert(string_views(out@) =~= pre_out.push(trim(views[i as int].1)));
            }
        }
        i = i + 1;
    }
    proof {
        assert(views.take(headers@.len() as int) =~= views);
    }
    out
}

/// Builds the canonical signing string for the request, or reports the
/// first declared header that the request does not carry.
pub fn build_comparison_string(
    names: &Vec<String>,
    method: &str,
    path: &str,
    headers: &Vec<(String, String)>,
) -> (r: Result<String, VerifyError>)
    ensures
        match comparison_string(string_views(names@), method@, path@, pair_views(headers@)) {
            Ok(cs) => r matches Ok(s) && s@ == cs,
            Err(name) => r matches Err(e) && e matches VerifyError::MissingHeader(h) && h@
                == name,
        },
{
    let ghost nviews = string_views(names@);
    let ghost hviews = pair_views(headers@);
    let mut lines: Vec<String> = Vec::new();
    let mut i: usize = 0;
    proof {
        assert(nviews.skip(0) =~= nviews);
    }
    while i < names.len()
        invariant
            i <= names.len(),
            nviews == string_views(names@),
            hviews == pair_views(headers@),
            lines@.len() == i,
            match canonical_lines(nviews.skip(i as int), method@, path@, hviews) {
                Ok(rest) => canonical_lines(nviews, method@, path@, hviews) == Ok::<_, Seq<char>>(
                    string_views(lines@) + rest,
                ),
                Err(e) => canonical_lines(nviews, method@, path@, hviews) == Err::<
                    Seq<Seq<char>>,
                    _,
                >(e),
            },
        decreases names.len() - i,
    {
        let ghost pre_lines = string_views(lines@);
        proof {
            assert(nviews.skip(i as int).first() == nviews[i as int]);
            assert(nviews.skip(i as int).drop_first() =~= nviews.skip(i + 1));
        }
        let lname = crate::text::to_lowercase(names[i].as_str());
        let mut line: String;
        if crate::text::str_eq(lname.as_str(), "(request-target)") {
            line = lname;
            line.append(": ");
            let lmethod = crate::text::to_lowercase(method);
            line.append(lmethod.as_str());
            line.append(" ");
            line.append(path);
        } else {
            let vals = collect_matching(headers, lname.as_str());
            if vals.len() == 0 {
                return Err(VerifyError::MissingHeader(lname));
            }
            let joined = crate::text::join_strings(&vals, ", ");
            line = lname;
            line.append(": ");
            line.append(joined.as_str());
        }
        lines.push(line);
        i = i + 1;
        proof {
            if canonical_lines(nviews.skip(i as int), method@, path@, hviews) is Ok {
                let rest = canonical_lines(nviews.skip(i as int), method@, path@, hviews)->Ok_0;
                assert(string_views(lines@) =~= pre_lines.push(
                    canonical_line(lower(nviews[i - 1]), method@, path@, hviews)->Ok_0,
                ));
                assert(string_views(lines@) + rest =~= pre_lines + rest.insert(
                    0,
                    canonical_line(lower(nviews[i - 1]), method@, path@, hviews)->Ok_0,
                ));
            }
        }
    }
    proof {
        assert(nviews.skip(names@.len() as int) =~= Seq::<Seq<char>>::empty());
        assert(string_views(lines@) + Seq::<Seq<char>>::empty() =~= string_views(lines@));
    }
    Ok(crate::text::join_strings(&lines, "\n"))
}

/// What one RSA-SHA256 verification yields for a PEM key text, a
/// message, and signature bytes: `None` where the PEM text gives no
/// usable RSA public key, otherwise whether the signature matches.
pub uninterp spec fn rsa_sha256_outcome(pem: Seq<u8>, msg: Seq<u8>, sig: Seq<u8>) -> Option<bool>;

/// Relies on openssl's `Rsa::public_key_from_pem`, `PKey::from_rsa`
/// and the SHA-256 `Verifier` (`new`/`update`/`verify`), chained as one
/// verification: the outcome depends on the key text, message and
/// signature bytes alone. `verify` reports a mismatch as `Ok(false)`
/// and other signature faults as errors; both count as not matching.
#[verifier::external_body]
fn rsa_sha256_verify(pem: &[u8], msg: &[u8], sig: &[u8]) -> (r: Option<bool>)
    ensures
        r == rsa_sha256_outcome(pem@, msg@, sig@),
{
    let rsa = openssl::rsa::Rsa::public_key_from_pem(pem).ok()?;
    let key = openssl::pkey::PKey::from_rsa(rsa).ok()?;
    let digest = openssl::hash::MessageDigest::sha256();
    let mut verifier = openssl::sign::Verifier::new(digest, &key).ok()?;
    if verifier.update(msg).is_err() {
        return Some(false);
    }
    Some(verifier.verify(sig).unwrap_or(false))
}

/// The signer's key in an actor document text: the string under
/// `publicKey.publicKeyPem`, or `None` where the text does not parse
/// or no string member stands at that path.
pub uninterp spec fn actor_pem(doc: Seq<char>) -> Option<Seq<char>>;

/// Relies on `serde_json::from_str`, `Value::get` and `Value::as_str`:
/// the member under `publicKey.publicKeyPem` depends on the document
/// text alone, and an unparseable text has no members.
#[verifier::external_body]
fn read_actor_pem(doc: &str) -> (r: Option<String>)
    ensures
        match r {
            Some(p) => actor_pem(doc@) == Some(p@),
            None => actor_pem(doc@) is None,
        },
        !json_parses(doc@) ==> r is None,
{
    let v: serde_json::Value = serde_json::from_str(doc).ok()?;
    v.get("publicKey")?.get("publicKeyPem")?.as_str().map(|t| t.to_owned())
}

/// Pulls the signer's PEM-encoded public key out of a fetched actor
/// document: the string under `publicKey.publicKeyPem`.
pub fn extract_public_key_pem(actor_document: &str) -> (r: Result<String, VerifyError>)
    ensures
        match actor_pem(actor_document@) {
            Some(p) => r matches Ok(pem) && pem@ == p,
            None => r == Err::<String, _>(VerifyError::MalformedActorDocument),
        },
        !json_parses(actor_document@) ==> r == Err::<String, _>(
            VerifyError::MalformedActorDocument,
        ),
{
    match read_actor_pem(actor_document) {
        Some(pem) => Ok(pem),
        None => Err(VerifyError::MalformedActorDocument),
    }
}

/// Verifies a parsed `Signature` header against a resolved public key:
/// builds the canonical signing string over the declared headers (with
/// `date` always included) and checks the RSA-SHA256 signature.
pub fn verify_with_key(
    pem: &str,
    signature: &Signature,
    request_headers: &Vec<(String, String)>,
    method: &str,
    path: &str,
) -> (r: Result<ValidSignature, VerifyError>)
    ensures
        match comparison_string(
            with_date(string_views(signature.headers@)),
            method@,
            path@,
            pair_views(request_headers@),
        ) {
            Err(name) => r matches Err(e) && e matches VerifyError::MissingHeader(h) && h@
                == name,
            Ok(cs) => match rsa_sha256_outcome(
                vstd::utf8::encode_utf8(pem@),
                vstd::utf8::encode_utf8(cs),
                signature.signature@,
            ) {
                None => r == Err::<ValidSignature, _>(VerifyError::MalformedPublicKey),
                Some(true) => r is Ok,
                Some(false) => r == Err::<ValidSignature, _>(VerifyError::SignatureMismatch),
            },
        },
{
    let required = ensure_date(&signature.headers);
    let comparison = match build_comparison_string(&required, method, path, request_headers) {
        Ok(comparison) => comparison,
        Err(e) => {
            return Err(e);
        },
    };
    match rsa_sha256_verify(pem.as_bytes(), comparison.as_str().as_bytes(), &signature.signature)
    {
        None => Err(VerifyError::MalformedPublicKey),
        Some(true) => Ok(ValidSignature {  }),
        Some(false) => Err(VerifyError::SignatureMismatch),
    }
}

/// Verifies a parsed `Signature` header given the fetched actor
/// document of the signer, the request's headers, its method, and its
/// target path. The network fetch of the document is the caller's;
/// everything after it happens here. Success is owed exactly when the
/// document yields a usable key and that key accepts the RSA-SHA256
/// signature of the canonical string; every failure is pinned to its
/// error, and a cryptographic mismatch is distinct from every
/// malformed-request error.
pub fn get_valid_signature(
    signature: &Signature,
    actor_document: &str,
    request_headers: &Vec<(String, String)>,
    method: &str,
    path: &str,
) -> (r: Result<ValidSignature, VerifyError>)
    ensures
        match actor_pem(actor_document@) {
            None => r == Err::<ValidSignature, _>(VerifyError::MalformedActorDocument),
            Some(pem) => match comparison_string(
                with_date(string_views(signature.headers@)),
                method@,
                path@,
                pair_views(request_headers@),
            ) {
                Err(name) => r matches Err(e) && e matches VerifyError::MissingHeader(h) && h@
                    == name,
                Ok(cs) => match rsa_sha256_outcome(
                    vstd::utf8::encode_utf8(pem),
                    vstd::utf8::encode_utf8(cs),
                    signature.signature@,
                ) {
                    None => r == Err::<ValidSignature, _>(VerifyError::MalformedPublicKey),
                    Some(true) => r is Ok,
                    Some(false) => r == Err::<ValidSignature, _>(VerifyError::SignatureMismatch),
                },
            },
        },
        !json_parses(actor_document@) ==> r == Err::<ValidSignature, _>(
            VerifyError::MalformedActorDocument,
        ),
{
    let pem = match extract_public_key_pem(actor_document) {
        Ok(pem) => pem,
        Err(e) => {
            return Err(e);
        },
    };
    verify_with_key(pem.as_str(), signature, request_headers, method, path)
}

} // verus!
