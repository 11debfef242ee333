//! Requests on the wire: what a client may ask for, and how a request
//! buffer is read into an [`Action`].
//!
//! A request is one line of tab-separated fields, possibly followed by the
//! zero bytes that an over-sized read buffer leaves behind. The first field
//! is the action code; the fields after it are taken by position.

use crate::decimal::{parse_decimal, parse_i32};
use crate::text::{split, split_fields, texts};
use vstd::prelude::*;
use vstd::slice::slice_subrange;
use vstd::string::StringExecFns;
use vstd::utf8::{decode_utf8, valid_utf8};

verus! {

/// One decoded request.
#[derive(Debug, Clone, PartialEq, Eq)]
pub enum Action {
    /// Code `0`: check the password of the user the vault runs as.
    CheckIdentity { password: String },
    /// Code `1`: list every stored credential.
    GetInfo,
    /// Code `2`: store a new credential.
    AddWebsiteAccount {
        account: String,
        password: String,
        site_url: String,
        site_name: Option<String>,
        note: Option<String>,
    },
    /// Code `3`: overwrite the credential with the given identifier.
    ChangeWebsiteAccount {
        id: i32,
        new_account: String,
        new_password: String,
        new_site_name: Option<String>,
        new_site_url: String,
        new_note: Option<String>,
    },
    /// Code `4`: remove the credential with the given identifier.
    DeleteWebsiteAccount { website_id: i32 },
    /// Code `5`: probe the site of every stored credential.
    CheckDeadLink,
}

/// What an [`Action`] holds, as mathematical values.
pub enum ActionView {
    CheckIdentity { password: Seq<char> },
    GetInfo,
    AddWebsiteAccount {
        account: Seq<char>,
        password: Seq<char>,
        site_url: Seq<char>,
        site_name: Option<Seq<char>>,
        note: Option<Seq<char>>,
    },
    ChangeWebsiteAccount {
        id: i32,
        new_account: Seq<char>,
        new_password: Seq<char>,
        new_site_name: Option<Seq<char>>,
        new_site_url: Seq<char>,
        new_note: Option<Seq<char>>,
    },
    DeleteWebsiteAccount { website_id: i32 },
    CheckDeadLink,
}

impl View for Action {
    type V = ActionView;

    open spec fn view(&self) -> ActionView {
        match self {
            Action::CheckIdentity { password } => ActionView::CheckIdentity { password: password@ },
            Action::GetInfo => ActionView::GetInfo,
            Action::AddWebsiteAccount { account, password, site_url, site_name, note } => {
                ActionView::AddWebsiteAccount {
                    account: account@,
                    password: password@,
                    site_url: site_url@,
                    site_name: site_name.deep_view(),
                    note: note.deep_view(),
                }
            },
            Action::ChangeWebsiteAccount {
                id,
                new_account,
                new_password,
                new_site_name,
                new_site_url,
                new_note,
            } => ActionView::ChangeWebsiteAccount {
                id: *id,
                new_account: new_account@,
                new_password: new_password@,
                new_site_name: new_site_name.deep_view(),
                new_site_url: new_site_url@,
                new_note: new_note.deep_view(),
            },
            Action::DeleteWebsiteAccount { website_id } => ActionView::DeleteWebsiteAccount {
                website_id: *website_id,
            },
            Action::CheckDeadLink => ActionView::CheckDeadLink,
        }
    }
}

/// The fields of a request that can be missing or malformed.
#[derive(Debug, Clone, Copy, PartialEq, Eq)]
pub enum Field {
    /// The action code, the first field of every request.
    ActionCode,
    Password,
    Account,
    SiteUrl,
    WebsiteId,
}

/// Why a request could not be decoded.
#[derive(Debug, Clone, Copy, PartialEq, Eq)]
pub enum DecodeError {
    /// The action code is a number, but none that the protocol knows.
    UnknownAction { code: i32 },
    /// The request ends before a field that its action requires.
    MissingField { field: Field },
    /// A field that must be a number is not a decimal `i32`.
    MalformedInteger { field: Field },
}

/// The field at position `at`, if the request has that many fields.
pub open spec fn optional_field(fields: Seq<Seq<char>>, at: int) -> Option<Seq<char>> {
    if 0 <= at < fields.len() {
        Some(fields[at])
    } else {
        None
    }
}

/// A `CheckIdentity` request: the password follows the code.
pub open spec fn decode_check_identity(fields: Seq<Seq<char>>) -> Result<ActionView, DecodeError> {
    if fields.len() <= 1 {
        Err(DecodeError::MissingField { field: Field::Password })
    } else {
        Ok(ActionView::CheckIdentity { password: fields[1] })
    }
}

/// An `AddWebsiteAccount` request: account, password and site URL are
/// required, in that order; site name and note may follow.
///
/// The site URL is the last of the required fields, so a request that
/// stops before it, however early, is rejected for want of the site URL.
pub open spec fn decode_add(fields: Seq<Seq<char>>) -> Result<ActionView, DecodeError> {
    if fields.len() <= 3 {
        Err(DecodeError::MissingField { field: Field::SiteUrl })
    } else {
        Ok(
            ActionView::AddWebsiteAccount {
                account: fields[1],
                password: fields[2],
                site_url: fields[3],
                site_name: optional_field(fields, 4),
                note: optional_field(fields, 5),
            },
        )
    }
}

/// A `ChangeWebsiteAccount` request: identifier, account and password are
/// required; then comes the site name, and only after it the required site
/// URL; a note may follow.
pub open spec fn decode_change(fields: Seq<Seq<char>>) -> Result<ActionView, DecodeError> {
    if fields.len() <= 1 {
        Err(DecodeError::MissingField { field: Field::WebsiteId })
    } else {
        match parse_i32(fields[1]) {
            None => Err(DecodeError::MalformedInteger { field: Field::WebsiteId }),
            Some(id) => {
                if fields.len() <= 2 {
                    Err(DecodeError::MissingField { field: Field::Account })
                } else if fields.len() <= 3 {
                    Err(DecodeError::MissingField { field: Field::Password })
                } else if fields.len() <= 5 {
                    Err(DecodeError::MissingField { field: Field::SiteUrl })
                } else {
                    Ok(
                        ActionView::ChangeWebsiteAccount {
                            id,
                            new_account: fields[2],
                            new_password: fields[3],
                            new_site_name: optional_field(fields, 4),
                            new_site_url: fields[5],
                            new_note: optional_field(fields, 6),
                        },
                    )
                }
            },
        }
    }
}

/// A `DeleteWebsiteAccount` request: the identifier follows the code.
pub open spec fn decode_delete(fields: Seq<Seq<char>>) -> Result<ActionView, DecodeError> {
    if fields.len() <= 1 {
        Err(DecodeError::MissingField { field: Field::WebsiteId })
    } else {
        match parse_i32(fields[1]) {
            None => Err(DecodeError::MalformedInteger { field: Field::WebsiteId }),
            Some(website_id) => Ok(ActionView::DeleteWebsiteAccount { website_id }),
        }
    }
}

/// The action that a list of fields denotes, or the reason it denotes none.
///
/// The first field is the action code. Fields beyond those that an action
/// reads are ignored.
pub open spec fn decode_fields(fields: Seq<Seq<char>>) -> Result<ActionView, DecodeError>
    recommends
        fields.len() >= 1,
{
    match parse_i32(fields[0]) {
        None => Err(DecodeError::MalformedInteger { field: Field::ActionCode }),
        Some(code) => {
            if code == 0 {
                decode_check_identity(fields)
            } else if code == 1 {
                Ok(ActionView::GetInfo)
            } else if code == 2 {
                decode_add(fields)
            } else if code == 3 {
                decode_change(fields)
            } else if code == 4 {
                decode_delete(fields)
            } else if code == 5 {
                Ok(ActionView::CheckDeadLink)
            } else {
                Err(DecodeError::UnknownAction { code })
            }
        },
    }
}

/// Whether `result` is the exec-level counterpart of `expected`.
pub open spec fn decoded_as(
    result: Result<Action, DecodeError>,
    expected: Result<ActionView, DecodeError>,
) -> bool {
    match result {
        Ok(action) => expected == Ok::<ActionView, DecodeError>(action@),
        Err(error) => expected == Err::<ActionView, DecodeError>(error),
    }
}

/// The field at position `at` as an owned string, if there is one.
fn optional_part(parts: &Vec<&str>, at: usize) -> (r: Option<String>)
    ensures
        r.deep_view() == optional_field(texts(parts@), at as int),
{
    if at < parts.len() {
        Some(String::from_str(parts[at]))
    } else {
        None
    }
}

/// Builds the action that the fields `parts` denote.
pub fn pack_action(parts: Vec<&str>) -> (result: Result<Action, DecodeError>)
    requires
        parts@.len() >= 1,
    ensures
        decoded_as(result, decode_fields(texts(parts@))),
{
    let count: usize = parts.len();
    let code: i32 = match parse_decimal(parts[0]) {
        Some(code) => code,
        None => { return Err(DecodeError::MalformedInteger { field: Field::ActionCode }); },
    };
    if code == 0 {
        if count <= 1 {
            return Err(DecodeError::MissingField { field: Field::Password });
        }
        Ok(Action::CheckIdentity { password: String::from_str(parts[1]) })
    } else if code == 1 {
        Ok(Action::GetInfo)
    } else if code == 2 {
        if count <= 3 {
            return Err(DecodeError::MissingField { field: Field::SiteUrl });
        }
        Ok(
            Action::AddWebsiteAccount {
                account: String::from_str(parts[1]),
                password: String::from_str(parts[2]),
                site_url: String::from_str(parts[3]),
                site_name: optional_part(&parts, 4),
                note: optional_part(&parts, 5),
            },
        )
    } else if code == 3 {
        if count <= 1 {
            return Err(DecodeError::MissingField { field: Field::WebsiteId });
        }
        let id: i32 = match parse_decimal(parts[1]) {
            Some(id) => id,
            None => { return Err(DecodeError::MalformedInteger { field: Field::WebsiteId }); },
        };
        if count <= 2 {
            return Err(DecodeError::MissingField { field: Field::Account });
        }
        if count <= 3 {
            return Err(DecodeError::MissingField { field: Field::Password });
        }
        if count <= 5 {
            return Err(DecodeError::MissingField { field: Field::SiteUrl });
        }
        Ok(
            Action::ChangeWebsiteAccount {
                id,
                new_account: String::from_str(parts[2]),
                new_password: String::from_str(parts[3]),
                new_site_name: optional_part(&parts, 4),
                new_site_url: String::from_str(parts[5]),
                new_note: optional_part(&parts, 6),
            },
        )
    } else if code == 4 {
        if count <= 1 {
            return Err(DecodeError::MissingField { field: Field::WebsiteId });
        }
        match parse_decimal(parts[1]) {
            Some(website_id) => Ok(Action::DeleteWebsiteAccount { website_id }),
            None => Err(DecodeError::MalformedInteger { field: Field::WebsiteId }),
        }
    } else if code == 5 {
        Ok(Action::CheckDeadLink)
    } else {
        Err(DecodeError::UnknownAction { code })
    }
}

/// `bytes` without the zero bytes at its end.
pub open spec fn strip_padding(bytes: Seq<u8>) -> Seq<u8>
    decreases bytes.len(),
{
    if bytes.len() > 0 && bytes.last() == 0 {
        strip_padding(bytes.drop_last())
    } else {
        bytes
    }
}

/// The number of bytes of `buffer` that come before its zero padding.
pub fn unpadded_len(buffer: &[u8]) -> (end: usize)
    ensures
        end <= buffer@.len(),
        buffer@.take(end as int) == strip_padding(buffer@),
{
    let mut end: usize = buffer.len();
    proof {
        assert(buffer@.take(end as int) =~= buffer@);
    }
    while end > 0 && buffer[end - 1] == 0
        invariant
            end <= buffer@.len(),
            strip_padding(buffer@.take(end as int)) == strip_padding(buffer@),
        decreases end,
    {
        proof {
            assert(buffer@.take(end as int).drop_last() =~= buffer@.take(end - 1));
        }
        end = end - 1;
    }
    proof {
        let kept = buffer@.take(end as int);
        if end > 0 {
            assert(kept.last() == buffer@[end - 1]);
        }
    }
    end
}

/// The text that [`String::from_utf8_lossy`] makes of `bytes`: the
/// characters that `bytes` encode, with U+FFFD standing in for every
/// stretch that is not valid UTF-8.
pub uninterp spec fn utf8_lossy(bytes: Seq<u8>) -> Seq<char>;

/// Calls [`String::from_utf8_lossy`] and takes ownership of what it gives.
///
/// Not proved: that the call is a function of the bytes alone, named
/// [`utf8_lossy`], and that it leaves valid UTF-8 as it is, so that the
/// result is then the ordinary decoding of `bytes`.
#[verifier::external_body]
fn lossy_text(bytes: &[u8]) -> (text: String)
    ensures
        text@ == utf8_lossy(bytes@),
        valid_utf8(bytes@) ==> text@ == decode_utf8(bytes@),
{
    String::from_utf8_lossy(bytes).into_owned()
}

/// The action that the request line `text` denotes.
pub open spec fn decode_text(text: Seq<char>) -> Result<ActionView, DecodeError> {
    decode_fields(split(text, '\t'))
}

/// The text that the bytes of a request stand for: the characters they
/// encode where they are valid UTF-8, and the lossy reading of them where
/// they are not.
pub open spec fn request_text(bytes: Seq<u8>) -> Seq<char> {
    if valid_utf8(bytes) {
        decode_utf8(bytes)
    } else {
        utf8_lossy(bytes)
    }
}

/// The action that a raw request buffer denotes: the zero padding is
/// dropped, the rest is read as text and cut into fields at every tab.
pub open spec fn decode_request(buffer: Seq<u8>) -> Result<ActionView, DecodeError> {
    decode_text(request_text(strip_padding(buffer)))
}

/// Decodes the request line `text`.
pub fn parse_request(text: &str) -> (result: Result<Action, DecodeError>)
    ensures
        decoded_as(result, decode_text(text@)),
{
    let parts: Vec<&str> = split_fields(text, '\t');
    pack_action(parts)
}

/// Decodes the request that was read into `buffer`.
///
/// Either a whole [`Action`] comes back or an error: a request that fails
/// to decode leaves nothing half-built behind.
pub fn read_request(buffer: &[u8]) -> (result: Result<Action, DecodeError>)
    ensures
        decoded_as(result, decode_request(buffer@)),
        valid_utf8(strip_padding(buffer@)) ==> decoded_as(
            result,
            decode_text(decode_utf8(strip_padding(buffer@))),
        ),
{
    let end: usize = unpadded_len(buffer);
    let text: String = lossy_text(slice_subrange(buffer, 0, end));
    assert(text@ == request_text(strip_padding(buffer@)));
    parse_request(text.as_str())
}

/// A request whose bytes, padding aside, are valid UTF-8 is decoded from
/// the very text that they encode.
pub proof fn lemma_valid_request(buffer: Seq<u8>)
    requires
        valid_utf8(strip_padding(buffer)),
    ensures
        decode_request(buffer) == decode_text(decode_utf8(strip_padding(buffer))),
{
}

/// Plain ASCII bytes are valid UTF-8 and stand for themselves: the text
/// of such a request has one character per byte, with the same code.
pub proof fn lemma_ascii_request_text(bytes: Seq<u8>)
    requires
        forall|i: int| 0 <= i < bytes.len() ==> bytes[i] < 128,
    ensures
        valid_utf8(bytes),
        decode_utf8(bytes) == Seq::new(bytes.len(), |i: int| bytes[i] as char),
        request_text(bytes) == Seq::new(bytes.len(), |i: int| bytes[i] as char),
{
    let chars = Seq::new(bytes.len(), |i: int| bytes[i] as char);
    assert(vstd::utf8::is_ascii_chars(chars));
    vstd::utf8::is_ascii_chars_encode_utf8(chars);
    assert(vstd::utf8::encode_utf8(chars) =~= bytes);
    vstd::utf8::encode_utf8_valid_utf8(chars);
    vstd::utf8::encode_utf8_decode_utf8(chars);
}

/// An `AddWebsiteAccount` request with its three required fields decodes,
/// whether or not a site name and a note follow; with fewer than three
/// fields after the code it is rejected for want of the site URL.
pub proof fn lemma_add_required_fields(fields: Seq<Seq<char>>)
    requires
        fields.len() >= 1,
        parse_i32(fields[0]) == Some(2i32),
    ensures
        fields.len() >= 4 ==> decode_fields(fields) == Ok::<ActionView, DecodeError>(
            ActionView::AddWebsiteAccount {
                account: fields[1],
                password: fields[2],
                site_url: fields[3],
                site_name: if fields.len() > 4 {
                    Some(fields[4])
                } else {
                    None
                },
                note: if fields.len() > 5 {
                    Some(fields[5])
                } else {
                    None
                },
            },
        ),
        fields.len() < 4 ==> decode_fields(fields) == Err::<ActionView, DecodeError>(
            DecodeError::MissingField { field: Field::SiteUrl },
        ),
{
}

/// A numeric action code outside `0..=5` is rejected as unknown, whatever
/// follows it.
pub proof fn lemma_unknown_code(fields: Seq<Seq<char>>, code: i32)
    requires
        fields.len() >= 1,
        parse_i32(fields[0]) == Some(code),
        code < 0 || code > 5,
    ensures
        decode_fields(fields) == Err::<ActionView, DecodeError>(
            DecodeError::UnknownAction { code },
        ),
{
}

/// A first field that is no decimal number is rejected as a malformed
/// action code, whatever follows it.
pub proof fn lemma_malformed_code(fields: Seq<Seq<char>>)
    requires
        fields.len() >= 1,
        parse_i32(fields[0]) is None,
    ensures
        decode_fields(fields) == Err::<ActionView, DecodeError>(
            DecodeError::MalformedInteger { field: Field::ActionCode },
        ),
{
}

} // verus!
