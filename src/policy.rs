//! The signed, time-bounded policy bundle: structure, canonical signing
//! payload, signing and validation.

use vstd::prelude::*;
use vstd::utf8::{encode_utf8, is_ascii_chars, is_ascii_chars_encode_utf8};

use crate::crypto::{base64_encode, base64_standard, constant_time_eq, hmac_sha256, hmac_sha256_tag};
use crate::security::{
    is_bounded, validate_bounded_string, ValidationLimits, MAX_COMMAND_ID_LEN, MAX_PAYLOAD_LEN,
    MAX_STREAM_LEN,
};
use crate::text::{
    append_field, append_list, decimal, decimal_string, field_text, has_duplicate_or_disorder, is_strictly_ascending,
    lemma_disorder_not_ascending, lemma_peel_field, lemma_peel_list, lemma_peel_number, lemma_peel_prefix,
    lemma_same_bytes_same_text, list_text, str_equal, str_lt, strictly_ascending,
};

verus! {

/// Longest accepted policy version, in bytes.
pub const MAX_VERSION_LEN: usize = 64;

/// Longest accepted signing key identifier, in bytes.
pub const MAX_KEY_ID_LEN: usize = 128;

/// What an admitted execution command may do.
#[derive(Debug, Clone)]
pub struct ExecutionPolicy {
    pub allowed_actions: Vec<String>,
    pub max_arguments: usize,
    pub max_argument_length: usize,
}

/// The signed, time-bounded authorization document.
#[derive(Debug, Clone)]
pub struct PolicyBundle {
    pub schema_version: u32,
    pub version: String,
    pub issued_at_unix_time_ms: u64,
    pub expires_at_unix_time_ms: u64,
    pub signing_key_id: String,
    pub signature: String,
    pub execution: ExecutionPolicy,
    pub telemetry_streams: Vec<String>,
}

/// How a bundle is checked at load time.
#[derive(Debug, Clone)]
pub struct PolicyValidationOptions {
    pub signing_key: Option<String>,
    pub expected_key_id: Option<String>,
    pub allow_unsigned: bool,
}

/// The text of each string of a list.
pub open spec fn names_of(v: Seq<String>) -> Seq<Seq<char>> {
    v.map_values(|s: String| s@)
}

/// A byte of an action name: `a`-`z`, `-` or `_`.
pub open spec fn is_action_byte(b: u8) -> bool {
    (97 <= b && b <= 122) || b == 45 || b == 95
}

/// Every character of the name is one of `a`-`z`, `-` and `_`.
pub open spec fn is_action_name(s: Seq<char>) -> bool {
    forall|i: int| 0 <= i < encode_utf8(s).len() ==> is_action_byte(#[trigger] encode_utf8(s)[i])
}

/// The structural rules on a list of action names.
pub open spec fn actions_well_formed(actions: Seq<Seq<char>>) -> bool {
    &&& actions.len() > 0
    &&& forall|i: int|
        0 <= i < actions.len() ==> is_bounded(#[trigger] actions[i], MAX_COMMAND_ID_LEN as nat)
            && is_action_name(actions[i])
    &&& strictly_ascending(actions)
}

/// The structural rules on a list of telemetry stream names.
pub open spec fn streams_well_formed(streams: Seq<Seq<char>>) -> bool {
    &&& streams.len() > 0
    &&& forall|i: int| 0 <= i < streams.len() ==> is_bounded(#[trigger] streams[i], MAX_STREAM_LEN as nat)
    &&& strictly_ascending(streams)
}

impl PolicyBundle {
    pub open spec fn actions(&self) -> Seq<Seq<char>> {
        names_of(self.execution.allowed_actions@)
    }

    pub open spec fn streams(&self) -> Seq<Seq<char>> {
        names_of(self.telemetry_streams@)
    }

    /// The structural invariants, checked both before signing and when
    /// validating: everything but the signature's value, the key id
    /// expected by the caller and the current time.
    pub open spec fn is_well_formed(&self) -> bool {
        &&& self.schema_version != 0
        &&& is_bounded(self.version@, MAX_VERSION_LEN as nat)
        &&& is_bounded(self.signing_key_id@, MAX_KEY_ID_LEN as nat)
        &&& is_bounded(self.signature@, MAX_PAYLOAD_LEN as nat)
        &&& self.issued_at_unix_time_ms <= self.expires_at_unix_time_ms
        &&& self.execution.max_arguments != 0
        &&& self.execution.max_argument_length != 0
        &&& actions_well_formed(self.actions())
        &&& streams_well_formed(self.streams())
    }

    /// The canonical text that the signature covers: every signed field in a
    /// fixed order, each behind its tag. Numbers are written in decimal; texts
    /// and list items are preceded by their length and lists by their number
    /// of items, so the text can be read back field by field.
    pub open spec fn signing_payload_spec(&self) -> Seq<char> {
        "schema_version="@ + (decimal(self.schema_version as nat) + ("|version="@ + (field_text(self.version@) + (
        "|issued_at="@ + (decimal(self.issued_at_unix_time_ms as nat) + ("|expires_at="@ + (decimal(
            self.expires_at_unix_time_ms as nat,
        ) + ("|signing_key_id="@ + (field_text(self.signing_key_id@) + ("|allowed_actions="@ + (list_text(
            self.actions(),
        ) + ("|max_arguments="@ + (decimal(self.execution.max_arguments as nat) + ("|max_argument_length="@ + (
        decimal(self.execution.max_argument_length as nat) + ("|telemetry_streams="@ + list_text(
            self.streams(),
        )))))))))))))))))
    }

    /// The fields that the signature covers agree with those of `other`.
    pub open spec fn same_signed_fields(&self, other: &PolicyBundle) -> bool {
        &&& self.schema_version == other.schema_version
        &&& self.version@ == other.version@
        &&& self.issued_at_unix_time_ms == other.issued_at_unix_time_ms
        &&& self.expires_at_unix_time_ms == other.expires_at_unix_time_ms
        &&& self.signing_key_id@ == other.signing_key_id@
        &&& self.actions() == other.actions()
        &&& self.execution.max_arguments == other.execution.max_arguments
        &&& self.execution.max_argument_length == other.execution.max_argument_length
        &&& self.streams() == other.streams()
    }

    /// The signature that `key` gives this bundle.
    pub open spec fn expected_signature(&self, key: Seq<char>) -> Seq<char> {
        base64_standard(hmac_sha256(encode_utf8(key), encode_utf8(self.signing_payload_spec())))
    }

    /// The stored signature is the one that `key` gives.
    pub open spec fn signature_matches(&self, key: Seq<char>) -> bool {
        self.signature@ == self.expected_signature(key)
    }

    /// The bundle is admitted at `now` under `options`.
    pub open spec fn is_valid_at(&self, now: u64, options: &PolicyValidationOptions) -> bool {
        &&& self.is_well_formed()
        &&& (options.expected_key_id matches Some(id) ==> self.signing_key_id@ == id@)
        &&& self.issued_at_unix_time_ms <= now <= self.expires_at_unix_time_ms
        &&& match options.signing_key {
            Some(key) => self.signature_matches(key@),
            None => options.allow_unsigned,
        }
    }

    /// `after` holds what `self` holds, but for the signature.
    pub open spec fn same_content(&self, after: &PolicyBundle) -> bool {
        &&& after.schema_version == self.schema_version
        &&& after.version == self.version
        &&& after.issued_at_unix_time_ms == self.issued_at_unix_time_ms
        &&& after.expires_at_unix_time_ms == self.expires_at_unix_time_ms
        &&& after.signing_key_id == self.signing_key_id
        &&& after.execution == self.execution
        &&& after.telemetry_streams == self.telemetry_streams
    }

    /// `after` is `self` signed with `key`.
    pub open spec fn signed_as(&self, key: Seq<char>, after: &PolicyBundle) -> bool {
        &&& self.same_content(after)
        &&& after.signature@ == self.expected_signature(key)
        &&& is_bounded(after.signature@, MAX_PAYLOAD_LEN as nat)
    }

    /// The built-in fallback bundle: the default actions and streams, valid
    /// for all time, with a placeholder signature. It is well formed.
    pub fn placeholder() -> (r: Self)
        ensures
            r.schema_version == 1,
            r.issued_at_unix_time_ms == 0,
            r.expires_at_unix_time_ms == u64::MAX,
            r.execution.max_arguments == 8,
            r.execution.max_argument_length == 256,
            r.actions() == seq!["patch-apply"@, "script-run"@],
            r.streams() == seq!["agent"@, "sensor"@],
            r.version@ == "policy-placeholder"@,
            r.signing_key_id@ == "signing-key-placeholder"@,
            r.signature@ == "signature-placeholder"@,
            r.is_well_formed(),
    {
        let r = PolicyBundle {
            schema_version: 1,
            version: String::from_str("policy-placeholder"),
            issued_at_unix_time_ms: 0,
            expires_at_unix_time_ms: u64::MAX,
            signing_key_id: String::from_str("signing-key-placeholder"),
            signature: String::from_str("signature-placeholder"),
            execution: ExecutionPolicy {
                allowed_actions: vec![String::from_str("patch-apply"), String::from_str("script-run")],
                max_arguments: 8,
                max_argument_length: 256,
            },
            telemetry_streams: vec![String::from_str("agent"), String::from_str("sensor")],
        };
        assert(r.actions() =~= seq!["patch-apply"@, "script-run"@]);
        assert(r.streams() =~= seq!["agent"@, "sensor"@]);
        proof {
            lemma_placeholder_well_formed(&r);
        }
        r
    }

    fn actions_ok(&self) -> (r: bool)
        ensures
            r == actions_well_formed(self.actions()),
    {
        let actions = &self.execution.allowed_actions;
        if actions.len() == 0 {
            return false;
        }
        let mut i: usize = 0;
        while i < actions.len()
            invariant
                i <= actions@.len(),
                actions == &self.execution.allowed_actions,
                forall|j: int|
                    0 <= j < i ==> is_bounded(#[trigger] self.actions()[j], MAX_COMMAND_ID_LEN as nat)
                        && is_action_name(self.actions()[j]),
            decreases actions.len() - i,
        {
            let name = actions[i].as_str();
            assert(self.actions()[i as int] == name@);
            if !validate_bounded_string(name, MAX_COMMAND_ID_LEN) {
                return false;
            }
            if !is_valid_action_name(name) {
                return false;
            }
            i = i + 1;
        }
        is_strictly_ascending(actions)
    }

    fn streams_ok(&self) -> (r: bool)
        ensures
            r == streams_well_formed(self.streams()),
    {
        let streams = &self.telemetry_streams;
        if streams.len() == 0 {
            return false;
        }
        let mut i: usize = 0;
        while i < streams.len()
            invariant
                i <= streams@.len(),
                streams == &self.telemetry_streams,
                forall|j: int|
                    0 <= j < i ==> is_bounded(#[trigger] self.streams()[j], MAX_STREAM_LEN as nat),
            decreases streams.len() - i,
        {
            let name = streams[i].as_str();
            assert(self.streams()[i as int] == name@);
            if !validate_bounded_string(name, MAX_STREAM_LEN) {
                return false;
            }
            i = i + 1;
        }
        is_strictly_ascending(streams)
    }

    /// Checks the structural invariants: every rule of validation but the
    /// signature's value, the expected key id and the current time.
    fn validate_for_signing(&self) -> (r: bool)
        ensures
            r == self.is_well_formed(),
    {
        if self.schema_version == 0 {
            return false;
        }
        if !validate_bounded_string(self.version.as_str(), MAX_VERSION_LEN) {
            return false;
        }
        if !validate_bounded_string(self.signing_key_id.as_str(), MAX_KEY_ID_LEN) {
            return false;
        }
        if !validate_bounded_string(self.signature.as_str(), MAX_PAYLOAD_LEN) {
            return false;
        }
        if self.issued_at_unix_time_ms > self.expires_at_unix_time_ms {
            return false;
        }
        if self.execution.max_arguments == 0 || self.execution.max_argument_length == 0 {
            return false;
        }
        self.actions_ok() && self.streams_ok()
    }

    /// The canonical signing payload, built from its last field back.
    fn signing_payload(&self) -> (r: String)
        ensures
            r@ == self.signing_payload_spec(),
    {
        let mut streams = String::from_str("|telemetry_streams=");
        append_list(&mut streams, &self.telemetry_streams);
        let rest = tagged_number("|max_argument_length=", self.execution.max_argument_length as u64, &streams);
        let rest = tagged_number("|max_arguments=", self.execution.max_arguments as u64, &rest);
        let rest = tagged_list("|allowed_actions=", &self.execution.allowed_actions, &rest);
        let rest = tagged_field("|signing_key_id=", self.signing_key_id.as_str(), &rest);
        let rest = tagged_number("|expires_at=", self.expires_at_unix_time_ms, &rest);
        let rest = tagged_number("|issued_at=", self.issued_at_unix_time_ms, &rest);
        let rest = tagged_field("|version=", self.version.as_str(), &rest);
        tagged_number("schema_version=", self.schema_version as u64, &rest)
    }

    /// The signature that `signing_key` gives this bundle.
    fn compute_signature(&self, signing_key: &str) -> (r: String)
        ensures
            r@ == self.expected_signature(signing_key@),
            is_bounded(r@, MAX_PAYLOAD_LEN as nat),
    {
        let payload = self.signing_payload();
        let tag = hmac_sha256_tag(signing_key.as_bytes(), payload.as_str().as_bytes()).unwrap();
        let r = base64_encode(tag.as_slice());
        proof {
            is_ascii_chars_encode_utf8(r@);
        }
        r
    }

    fn verify_signature(&self, signing_key: &str) -> (r: bool)
        ensures
            r == self.signature_matches(signing_key@),
    {
        let expected = self.compute_signature(signing_key);
        proof {
            lemma_same_bytes_same_text(self.signature@, expected@);
        }
        constant_time_eq(self.signature.as_str().as_bytes(), expected.as_str().as_bytes())
    }

    /// Checks the bundle at `now_unix_time_ms`: structure, validity window,
    /// expected key id, and the signature when a key is given; without a key
    /// the bundle passes only when unsigned bundles are allowed.
    pub fn validate(&self, now_unix_time_ms: u64, options: &PolicyValidationOptions) -> (r: bool)
        ensures
            r == self.is_valid_at(now_unix_time_ms, options),
    {
        let limits = ValidationLimits::default_limits();
        if self.schema_version == 0 {
            return false;
        }
        if !validate_bounded_string(self.version.as_str(), MAX_VERSION_LEN) {
            return false;
        }
        if !validate_bounded_string(self.signing_key_id.as_str(), MAX_KEY_ID_LEN) {
            return false;
        }
        if !validate_bounded_string(self.signature.as_str(), limits.max_payload_len) {
            return false;
        }
        if let Some(expected_key_id) = &options.expected_key_id {
            if !self.signing_key_id.eq(expected_key_id) {
                return false;
            }
        }
        if self.issued_at_unix_time_ms > self.expires_at_unix_time_ms {
            return false;
        }
        if now_unix_time_ms < self.issued_at_unix_time_ms
            || now_unix_time_ms > self.expires_at_unix_time_ms {
            return false;
        }
        if self.execution.max_arguments == 0 || self.execution.max_argument_length == 0 {
            return false;
        }
        if !self.actions_ok() {
            return false;
        }
        if !self.streams_ok() {
            return false;
        }
        match &options.signing_key {
            Some(signing_key) => self.verify_signature(signing_key.as_str()),
            None => options.allow_unsigned,
        }
    }

    /// Membership of `action` in the allowed actions.
    pub fn allows_action(&self, action: &str) -> (r: bool)
        ensures
            r == self.actions().contains(action@),
    {
        let actions = &self.execution.allowed_actions;
        let mut i: usize = 0;
        while i < actions.len()
            invariant
                i <= actions@.len(),
                actions == &self.execution.allowed_actions,
                forall|j: int| 0 <= j < i ==> self.actions()[j] != action@,
            decreases actions.len() - i,
        {
            if str_equal(actions[i].as_str(), action) {
                assert(self.actions()[i as int] == action@);
                return true;
            }
            i = i + 1;
        }
        false
    }

    /// Signs the bundle with `signing_key` when it is well formed; a bundle
    /// that is not is left as it was.
    pub fn sign_with_key(&mut self, signing_key: &str) -> (r: bool)
        ensures
            r == old(self).is_well_formed(),
            r ==> old(self).signed_as(signing_key@, final(self)),
            !r ==> *final(self) == *old(self),
    {
        if !self.validate_for_signing() {
            return false;
        }
        let signature = self.compute_signature(signing_key);
        self.signature = signature;
        true
    }
}

/// The UTF-8 bytes of ASCII text are its characters, one byte each.
proof fn lemma_ascii_bytes(s: Seq<char>)
    requires
        is_ascii_chars(s),
    ensures
        encode_utf8(s).len() == s.len(),
        forall|i: int| 0 <= i < s.len() ==> #[trigger] encode_utf8(s)[i] == s[i] as u8,
{
    is_ascii_chars_encode_utf8(s);
}

proof fn lemma_placeholder_well_formed(r: &PolicyBundle)
    requires
        r.schema_version == 1,
        r.issued_at_unix_time_ms == 0,
        r.execution.max_arguments == 8,
        r.execution.max_argument_length == 256,
        r.actions() == seq!["patch-apply"@, "script-run"@],
        r.streams() == seq!["agent"@, "sensor"@],
        r.version@ == "policy-placeholder"@,
        r.signing_key_id@ == "signing-key-placeholder"@,
        r.signature@ == "signature-placeholder"@,
    ensures
        r.is_well_formed(),
{
    reveal_strlit("policy-placeholder");
    reveal_strlit("signing-key-placeholder");
    reveal_strlit("signature-placeholder");
    reveal_strlit("patch-apply");
    reveal_strlit("script-run");
    reveal_strlit("agent");
    reveal_strlit("sensor");
    let texts = seq![
        "policy-placeholder"@,
        "signing-key-placeholder"@,
        "signature-placeholder"@,
        "patch-apply"@,
        "script-run"@,
        "agent"@,
        "sensor"@,
    ];
    assert forall|k: int| 0 <= k < texts.len() implies is_ascii_chars(#[trigger] texts[k]) && texts[k].len()
        <= 64 by {
        assert(texts[k] == seq![
            "policy-placeholder"@,
            "signing-key-placeholder"@,
            "signature-placeholder"@,
            "patch-apply"@,
            "script-run"@,
            "agent"@,
            "sensor"@,
        ][k]);
    }
    let act = r.actions();
    let st = r.streams();
    lemma_ascii_bytes(texts[0]);
    lemma_ascii_bytes(texts[1]);
    lemma_ascii_bytes(texts[2]);
    lemma_ascii_bytes(texts[3]);
    lemma_ascii_bytes(texts[4]);
    lemma_ascii_bytes(texts[5]);
    lemma_ascii_bytes(texts[6]);
    assert(is_action_name(act[0]));
    assert(is_action_name(act[1]));
    assert(encode_utf8(act[0])[0] == 112u8);
    assert(encode_utf8(act[1])[0] == 115u8);
    assert(str_lt(act[0], act[1]));
    assert(strictly_ascending(act));
    assert(encode_utf8(st[0])[0] == 97u8);
    assert(encode_utf8(st[1])[0] == 115u8);
    assert(str_lt(st[0], st[1]));
    assert(strictly_ascending(st));
}

/// `tag`, then `n` in decimal, then `rest`.
fn tagged_number(tag: &str, n: u64, rest: &String) -> (r: String)
    ensures
        r@ == tag@ + (decimal(n as nat) + rest@),
{
    let mut r = String::from_str(tag);
    let digits = decimal_string(n);
    r.append(digits.as_str());
    r.append(rest.as_str());
    assert(r@ =~= tag@ + (decimal(n as nat) + rest@));
    r
}

/// `tag`, then `text` behind its length, then `rest`.
fn tagged_field(tag: &str, text: &str, rest: &String) -> (r: String)
    ensures
        r@ == tag@ + (field_text(text@) + rest@),
{
    let mut r = String::from_str(tag);
    append_field(&mut r, text);
    r.append(rest.as_str());
    assert(r@ =~= tag@ + (field_text(text@) + rest@));
    r
}

/// `tag`, then the list text of `items`, then `rest`.
fn tagged_list(tag: &str, items: &Vec<String>, rest: &String) -> (r: String)
    ensures
        r@ == tag@ + (list_text(names_of(items@)) + rest@),
{
    let mut r = String::from_str(tag);
    append_list(&mut r, items);
    r.append(rest.as_str());
    assert(r@ =~= tag@ + (list_text(names_of(items@)) + rest@));
    r
}

/// Checks that every byte of `action` is `a`-`z`, `-` or `_`.
fn is_valid_action_name(action: &str) -> (r: bool)
    ensures
        r == is_action_name(action@),
{
    let bytes = action.as_bytes();
    let mut i: usize = 0;
    while i < bytes.len()
        invariant
            i <= bytes@.len(),
            bytes@ == encode_utf8(action@),
            forall|j: int| 0 <= j < i ==> is_action_byte(#[trigger] bytes@[j]),
        decreases bytes.len() - i,
    {
        let b = bytes[i];
        if !((b >= 97 && b <= 122) || b == 45 || b == 95) {
            return false;
        }
        i = i + 1;
    }
    true
}

} // verus!

verus! {

/// Signing a bundle with a key and then validating it with that key (no
/// expected key id, unsigned bundles refused) at any time inside the bundle's
/// validity window succeeds exactly when the bundle is well formed.
pub proof fn lemma_signed_bundle_validates(
    before: PolicyBundle,
    key: Seq<char>,
    signed: bool,
    after: PolicyBundle,
    now: u64,
    options: PolicyValidationOptions,
)
    requires
        signed == before.is_well_formed(),
        signed ==> before.signed_as(key, &after),
        !signed ==> after == before,
        before.issued_at_unix_time_ms <= now <= before.expires_at_unix_time_ms,
        options.signing_key matches Some(k) && k@ == key,
        options.expected_key_id is None,
        !options.allow_unsigned,
    ensures
        after.is_valid_at(now, &options) == before.is_well_formed(),
{
    if signed {
        assert(after.actions() == before.actions());
        assert(after.streams() == before.streams());
        assert(after.signing_payload_spec() == before.signing_payload_spec());
    }
}

/// A bundle whose action list or stream list repeats a name or holds two
/// neighbours out of order is refused by `sign_with_key` and by `validate`,
/// whatever the time and the options.
pub proof fn lemma_disordered_bundle_rejected(
    bundle: PolicyBundle,
    now: u64,
    options: PolicyValidationOptions,
)
    requires
        has_duplicate_or_disorder(bundle.actions()) || has_duplicate_or_disorder(bundle.streams()),
    ensures
        !bundle.is_well_formed(),
        !bundle.is_valid_at(now, &options),
{
    if has_duplicate_or_disorder(bundle.actions()) {
        lemma_disorder_not_ascending(bundle.actions());
    } else {
        lemma_disorder_not_ascending(bundle.streams());
    }
}

} // verus!

verus! {

/// Replacing the signature of a bundle signed with `key` by any other text
/// makes validation with `key` fail.
pub proof fn lemma_signature_tamper_rejected(
    signed: PolicyBundle,
    key: Seq<char>,
    tampered: PolicyBundle,
    now: u64,
    options: PolicyValidationOptions,
)
    requires
        signed.signature@ == signed.expected_signature(key),
        signed.same_content(&tampered),
        tampered.signature@ != signed.signature@,
        options.signing_key matches Some(k) && k@ == key,
    ensures
        !tampered.is_valid_at(now, &options),
{
    assert(tampered.actions() == signed.actions());
    assert(tampered.streams() == signed.streams());
    assert(tampered.signing_payload_spec() == signed.signing_payload_spec());
}

/// A bundle tampered with after signing, keeping the old signature, with any
/// signed field changed, passes validation with the signing key only if two
/// different messages have the same Base64 HMAC tag under that key.
pub proof fn lemma_tampered_bundle_needs_collision(
    signed: PolicyBundle,
    key: Seq<char>,
    tampered: PolicyBundle,
    now: u64,
    options: PolicyValidationOptions,
)
    requires
        signed.signature@ == signed.expected_signature(key),
        tampered.signature@ == signed.signature@,
        !tampered.same_signed_fields(&signed),
        options.signing_key matches Some(k) && k@ == key,
    ensures
        tampered.is_valid_at(now, &options) ==> {
            &&& encode_utf8(tampered.signing_payload_spec()) != encode_utf8(signed.signing_payload_spec())
            &&& base64_standard(hmac_sha256(encode_utf8(key), encode_utf8(tampered.signing_payload_spec())))
                == base64_standard(hmac_sha256(encode_utf8(key), encode_utf8(signed.signing_payload_spec())))
        },
{
    lemma_tamper_changes_payload(signed, tampered);
    lemma_same_bytes_same_text(tampered.signing_payload_spec(), signed.signing_payload_spec());
}

/// The canonical text determines every signed field: two bundles with the
/// same text agree on all of them.
#[verifier::rlimit(60)]
pub proof fn lemma_signing_payload_injective(a: PolicyBundle, b: PolicyBundle)
    requires
        a.signing_payload_spec() == b.signing_payload_spec(),
    ensures
        a.same_signed_fields(&b),
{
    reveal_strlit("|version=");
    reveal_strlit("|issued_at=");
    reveal_strlit("|expires_at=");
    reveal_strlit("|signing_key_id=");
    reveal_strlit("|allowed_actions=");
    reveal_strlit("|max_arguments=");
    reveal_strlit("|max_argument_length=");
    reveal_strlit("|telemetry_streams=");
    let s8a = "|telemetry_streams="@ + list_text(a.streams());
    let s8b = "|telemetry_streams="@ + list_text(b.streams());
    let s7a = "|max_argument_length="@ + (decimal(a.execution.max_argument_length as nat) + s8a);
    let s7b = "|max_argument_length="@ + (decimal(b.execution.max_argument_length as nat) + s8b);
    let s6a = "|max_arguments="@ + (decimal(a.execution.max_arguments as nat) + s7a);
    let s6b = "|max_arguments="@ + (decimal(b.execution.max_arguments as nat) + s7b);
    let s5a = "|allowed_actions="@ + (list_text(a.actions()) + s6a);
    let s5b = "|allowed_actions="@ + (list_text(b.actions()) + s6b);
    let s4a = "|signing_key_id="@ + (field_text(a.signing_key_id@) + s5a);
    let s4b = "|signing_key_id="@ + (field_text(b.signing_key_id@) + s5b);
    let s3a = "|expires_at="@ + (decimal(a.expires_at_unix_time_ms as nat) + s4a);
    let s3b = "|expires_at="@ + (decimal(b.expires_at_unix_time_ms as nat) + s4b);
    let s2a = "|issued_at="@ + (decimal(a.issued_at_unix_time_ms as nat) + s3a);
    let s2b = "|issued_at="@ + (decimal(b.issued_at_unix_time_ms as nat) + s3b);
    let s1a = "|version="@ + (field_text(a.version@) + s2a);
    let s1b = "|version="@ + (field_text(b.version@) + s2b);
    lemma_peel_prefix("schema_version="@, decimal(a.schema_version as nat) + s1a, decimal(b.schema_version as nat) + s1b);
    assert(s1a[0] == '|' && s1b[0] == '|');
    lemma_peel_number(a.schema_version as nat, b.schema_version as nat, s1a, s1b);
    lemma_peel_prefix("|version="@, field_text(a.version@) + s2a, field_text(b.version@) + s2b);
    lemma_peel_field(a.version@, b.version@, s2a, s2b);
    lemma_peel_prefix(
        "|issued_at="@,
        decimal(a.issued_at_unix_time_ms as nat) + s3a,
        decimal(b.issued_at_unix_time_ms as nat) + s3b,
    );
    assert(s3a[0] == '|' && s3b[0] == '|');
    lemma_peel_number(a.issued_at_unix_time_ms as nat, b.issued_at_unix_time_ms as nat, s3a, s3b);
    lemma_peel_prefix(
        "|expires_at="@,
        decimal(a.expires_at_unix_time_ms as nat) + s4a,
        decimal(b.expires_at_unix_time_ms as nat) + s4b,
    );
    assert(s4a[0] == '|' && s4b[0] == '|');
    lemma_peel_number(a.expires_at_unix_time_ms as nat, b.expires_at_unix_time_ms as nat, s4a, s4b);
    lemma_peel_prefix("|signing_key_id="@, field_text(a.signing_key_id@) + s5a, field_text(b.signing_key_id@) + s5b);
    lemma_peel_field(a.signing_key_id@, b.signing_key_id@, s5a, s5b);
    lemma_peel_prefix("|allowed_actions="@, list_text(a.actions()) + s6a, list_text(b.actions()) + s6b);
    lemma_peel_list(a.actions(), b.actions(), s6a, s6b);
    lemma_peel_prefix(
        "|max_arguments="@,
        decimal(a.execution.max_arguments as nat) + s7a,
        decimal(b.execution.max_arguments as nat) + s7b,
    );
    assert(s7a[0] == '|' && s7b[0] == '|');
    lemma_peel_number(a.execution.max_arguments as nat, b.execution.max_arguments as nat, s7a, s7b);
    lemma_peel_prefix(
        "|max_argument_length="@,
        decimal(a.execution.max_argument_length as nat) + s8a,
        decimal(b.execution.max_argument_length as nat) + s8b,
    );
    assert(s8a[0] == '|' && s8b[0] == '|');
    lemma_peel_number(
        a.execution.max_argument_length as nat,
        b.execution.max_argument_length as nat,
        s8a,
        s8b,
    );
    lemma_peel_prefix("|telemetry_streams="@, list_text(a.streams()), list_text(b.streams()));
    assert(list_text(a.streams()) + Seq::<char>::empty() =~= list_text(a.streams()));
    assert(list_text(b.streams()) + Seq::<char>::empty() =~= list_text(b.streams()));
    lemma_peel_list(a.streams(), b.streams(), Seq::empty(), Seq::empty());
}

/// Changing any signed field of a bundle, be it a number, a text, the
/// action list or the stream list, changes its canonical text.
pub proof fn lemma_tamper_changes_payload(before: PolicyBundle, after: PolicyBundle)
    requires
        !after.same_signed_fields(&before),
    ensures
        after.signing_payload_spec() != before.signing_payload_spec(),
{
    if after.signing_payload_spec() == before.signing_payload_spec() {
        lemma_signing_payload_injective(after, before);
    }
}

} // verus!
