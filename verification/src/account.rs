//! The account remembered between runs: the QQ number and the login token,
//! stored as settings text.

use vstd::prelude::*;
use crate::decimal::{bool_text, bool_to_string, i64_to_string, int_text, parse_bool, parse_i64, spec_parse_bool, spec_parse_i64, law_bool_text_round_trip, law_i64_text_round_trip};

verus! {

/// The error `base64::decode` reports.
#[verifier::external_type_specification]
#[verifier::external_body]
pub struct ExDecodeError(base64::DecodeError);

/// The character of a six-bit value in the standard base64 alphabet.
pub open spec fn base64_char(v: int) -> char {
    if v < 26 {
        (65 + v) as char
    } else if v < 52 {
        (97 + v - 26) as char
    } else if v < 62 {
        (48 + v - 52) as char
    } else if v == 62 {
        '+'
    } else {
        '/'
    }
}

/// The standard base64 text of a byte string (RFC 4648, with `=` padding):
/// every three bytes become four characters of six bits each.
pub open spec fn spec_base64_encode(b: Seq<u8>) -> Seq<char>
    decreases b.len(),
{
    let x = if b.len() > 0 { b[0] as int } else { 0 };
    let y = if b.len() > 1 { b[1] as int } else { 0 };
    let z = if b.len() > 2 { b[2] as int } else { 0 };
    if b.len() == 0 {
        Seq::empty()
    } else if b.len() == 1 {
        seq![base64_char(x / 4), base64_char((x % 4) * 16), '=', '=']
    } else if b.len() == 2 {
        seq![base64_char(x / 4), base64_char((x % 4) * 16 + y / 16), base64_char((y % 16) * 4), '=']
    } else {
        seq![base64_char(x / 4), base64_char((x % 4) * 16 + y / 16), base64_char((y % 16) * 4 + z / 64), base64_char(z % 64)]
            + spec_base64_encode(b.skip(3))
    }
}

/// The bytes `base64::decode` reads from a text, if it is valid base64.
pub uninterp spec fn spec_base64_decode(text: Seq<char>) -> Option<Seq<u8>>;

/// `base64::encode`: the standard base64 text of `bytes`, with padding, as
/// `spec_base64_encode` writes it out.
#[verifier::external_body]
fn base64_encode(bytes: &[u8]) -> (r: String)
    ensures
        r@ == spec_base64_encode(bytes@),
{
    base64::encode(bytes)
}

/// `base64::decode`: the bytes of a standard base64 text, or an error when
/// the text is not valid base64, as the name `spec_base64_decode` says. The
/// crate decodes what its `encode` wrote back to the bytes it was given; that
/// fact is stated for this call's argument.
#[verifier::external_body]
fn base64_decode(text: &str) -> (r: Result<Vec<u8>, base64::DecodeError>)
    ensures
        r is Ok <==> spec_base64_decode(text@) is Some,
        r is Ok ==> r->Ok_0@ == spec_base64_decode(text@)->0,
        forall|b: Seq<u8>| #[trigger] spec_base64_encode(b) == text@ ==> (r is Ok && r->Ok_0@ == b),
{
    base64::decode(text)
}

/// Why a remembered account could not be read back.
#[derive(Debug, Clone, PartialEq, Eq)]
pub enum AccountError {
    /// The stored token is not valid base64.
    BadBase64,
}

/// The two settings that remember an account.
#[derive(Debug, Clone, PartialEq, Eq)]
pub struct SavedAccount {
    /// The value stored under the key `account`.
    pub account: String,
    /// The value stored under the key `token`.
    pub token: String,
}

/// A remembered account: its QQ number and its login token, serialized.
#[derive(Debug, Clone, PartialEq, Eq)]
pub struct LocalAccount {
    pub account: i64,
    pub token: Vec<u8>,
}

/// The settings text for a remembered account.
pub open spec fn saved_text(account: i64, token: Seq<u8>) -> (Seq<char>, Seq<char>) {
    (int_text(account as int), spec_base64_encode(token))
}

/// What reading back a remembered account from its settings gives: nothing
/// when a setting is missing or the number does not parse, an error when
/// the token is not base64.
pub open spec fn read_account(account: Option<Seq<char>>, token: Option<Seq<char>>) -> Result<Option<(i64, Seq<u8>)>, ()> {
    match account {
        None => Ok(None),
        Some(a) => match spec_parse_i64(a) {
            None => Ok(None),
            Some(n) => match token {
                None => Ok(None),
                Some(t) => match spec_base64_decode(t) {
                    None => Err(()),
                    Some(bytes) => Ok(Some((n, bytes))),
                },
            },
        },
    }
}

/// The view of an optional string.
pub open spec fn opt_view(s: Option<String>) -> Option<Seq<char>> {
    match s {
        Some(t) => Some(t@),
        None => None,
    }
}

impl LocalAccount {
    /// An account to remember.
    pub fn new(account: i64, token: Vec<u8>) -> (r: LocalAccount)
        ensures
            r.account == account,
            r.token@ == token@,
    {
        LocalAccount { account, token }
    }

    /// The settings text of a token.
    pub fn token_to_base64(token: &[u8]) -> (r: String)
        ensures
            r@ == spec_base64_encode(token@),
    {
        base64_encode(token)
    }

    /// The token a settings text holds.
    pub fn base64_to_token(text: &str) -> (r: Result<Vec<u8>, AccountError>)
        ensures
            match spec_base64_decode(text@) {
                Some(bytes) => r is Ok && r->Ok_0@ == bytes,
                None => r is Err,
            },
            forall|b: Seq<u8>| #[trigger] spec_base64_encode(b) == text@ ==> (r is Ok && r->Ok_0@ == b),
    {
        match base64_decode(text) {
            Ok(bytes) => Ok(bytes),
            Err(_) => Err(AccountError::BadBase64),
        }
    }

    /// The settings that remember this account.
    pub fn save_account(&self) -> (r: SavedAccount)
        ensures
            (r.account@, r.token@) == saved_text(self.account, self.token@),
    {
        SavedAccount { account: i64_to_string(self.account), token: Self::token_to_base64(self.token.as_slice()) }
    }

    /// Reads back a remembered account from its two settings (each `None`
    /// when missing). Reading back what `save_account` wrote gives the account.
    pub fn get_account(account: Option<String>, token: Option<String>) -> (r: Result<Option<LocalAccount>, AccountError>)
        ensures
            match read_account(opt_view(account), opt_view(token)) {
                Ok(None) => r is Ok && r->Ok_0 is None,
                Ok(Some((n, bytes))) => r is Ok && r->Ok_0 is Some && r->Ok_0->0.account == n && r->Ok_0->0.token@ == bytes,
                Err(_) => r is Err,
            },
            forall|n: i64, bytes: Seq<u8>|
                #![trigger saved_text(n, bytes)]
                (opt_view(account), opt_view(token)) == (Some(saved_text(n, bytes).0), Some(saved_text(n, bytes).1))
                    ==> (r is Ok && r->Ok_0 is Some && r->Ok_0->0.account == n && r->Ok_0->0.token@ == bytes),
    {
        let number = match &account {
            None => {
                return Ok(None);
            },
            Some(text) => parse_i64(text.as_str()),
        };
        proof {
            assert forall|n: i64, bytes: Seq<u8>| #![trigger saved_text(n, bytes)]
                opt_view(account) == Some(saved_text(n, bytes).0) implies number == Some(n) by {
                law_i64_text_round_trip(n);
            }
        }
        let n = match number {
            None => {
                return Ok(None);
            },
            Some(n) => n,
        };
        let text = match &token {
            None => {
                return Ok(None);
            },
            Some(t) => t,
        };
        match Self::base64_to_token(text.as_str()) {
            Ok(bytes) => Ok(Some(LocalAccount { account: n, token: bytes })),
            Err(e) => Err(e),
        }
    }
}

/// The two login switches kept between runs.
#[derive(Debug, Clone, PartialEq, Eq)]
pub struct LoginSettings {
    pub remember_pwd: bool,
    pub auto_login: bool,
}

/// A switch read back from its setting: off when missing or not `true`/`false`.
pub open spec fn read_flag(text: Option<Seq<char>>) -> bool {
    match text {
        Some(t) => match spec_parse_bool(t) {
            Some(b) => b,
            None => false,
        },
        None => false,
    }
}

/// Reads a switch back from its setting (`None` when missing).
pub fn load_flag(text: Option<String>) -> (r: bool)
    ensures
        r == read_flag(opt_view(text)),
{
    match text {
        Some(t) => match parse_bool(t.as_str()) {
            Some(b) => b,
            None => false,
        },
        None => false,
    }
}

impl LoginSettings {
    /// The switches read back from the settings `remember_pwd` and `auto_login`.
    pub fn load(remember_pwd: Option<String>, auto_login: Option<String>) -> (r: LoginSettings)
        ensures
            r.remember_pwd == read_flag(opt_view(remember_pwd)),
            r.auto_login == read_flag(opt_view(auto_login)),
    {
        LoginSettings { remember_pwd: load_flag(remember_pwd), auto_login: load_flag(auto_login) }
    }

    /// The remembered account the login page offers: read back from its
    /// settings only when the password is remembered.
    pub fn account_to_load(&self, account: Option<String>, token: Option<String>) -> (r: Result<Option<LocalAccount>, AccountError>)
        ensures
            !self.remember_pwd ==> (r is Ok && r->Ok_0 is None),
            self.remember_pwd ==> match read_account(opt_view(account), opt_view(token)) {
                Ok(None) => r is Ok && r->Ok_0 is None,
                Ok(Some((n, bytes))) => r is Ok && r->Ok_0 is Some && r->Ok_0->0.account == n && r->Ok_0->0.token@ == bytes,
                Err(_) => r is Err,
            },
    {
        if !self.remember_pwd {
            Ok(None)
        } else {
            LocalAccount::get_account(account, token)
        }
    }

    /// The settings text of the switches: `remember_pwd` first, then `auto_login`.
    pub fn save_login_setting(&self) -> (r: (String, String))
        ensures
            r.0@ == bool_text(self.remember_pwd),
            r.1@ == bool_text(self.auto_login),
    {
        (bool_to_string(self.remember_pwd), bool_to_string(self.auto_login))
    }
}

/// Law: reading back the switches from what was saved gives the switches.
pub proof fn law_login_settings_round_trip(remember_pwd: bool, auto_login: bool)
    ensures
        read_flag(Some(bool_text(remember_pwd))) == remember_pwd,
        read_flag(Some(bool_text(auto_login))) == auto_login,
{
    law_bool_text_round_trip(remember_pwd);
    law_bool_text_round_trip(auto_login);
}

} // verus!
