//! Data shapes of the SMS integration and the phone-number normalizer.
//! The HTTP calls to the SMS providers are handled outside this crate;
//! the normalization of a phone number to E.164 form is this crate's own
//! verified logic.

use vstd::prelude::*;

use crate::jsonparse::is_digit;

verus! {

#[derive(Clone, Copy, PartialEq, Eq, Structural, Debug)]
pub enum SmsProvider {
    Twilio,
    Textbelt,
}

pub struct SmsConfig {
    pub provider: SmsProvider,
    pub twilio_account_sid: Option<String>,
    pub twilio_auth_token: Option<String>,
    pub twilio_from_phone: Option<String>,
    pub textbelt_api_key: Option<String>,
    pub textbelt_api_url: String,
}

pub struct SendSmsRequest {
    pub phone: String,
    pub message: String,
}

pub struct ShippingUpdateSmsRequest {
    pub phone: String,
    pub order_id: String,
    pub tracking_number: String,
    pub carrier: String,
}

pub struct DeliveryNotificationSmsRequest {
    pub phone: String,
    pub order_id: String,
}

pub struct SmsResponse {
    pub success: bool,
    pub message: String,
    pub quota_remaining: Option<i32>,
}

/// The decimal digits of a text, in order, everything else dropped.
pub open spec fn digits_of(s: Seq<char>) -> Seq<char>
    decreases s.len(),
{
    if s.len() == 0 {
        Seq::empty()
    } else {
        let rest = digits_of(s.drop_last());
        if is_digit(s.last()) {
            rest.push(s.last())
        } else {
            rest
        }
    }
}

/// Normalize a phone number to E.164 form: ten digits get the North
/// American `+1`, eleven digits starting with `1` and any longer run get
/// a bare `+`; fewer than ten digits is an error.
pub fn format_phone_number(phone: &str) -> (r: Result<String, String>)
    ensures
        ({
            let ds = digits_of(phone@);
            if ds.len() == 10 {
                r matches Ok(t) && t@ == "+1"@ + ds
            } else if ds.len() == 11 && ds[0] == '1' {
                r matches Ok(t) && t@ == "+"@ + ds
            } else if ds.len() >= 10 {
                r matches Ok(t) && t@ == "+"@ + ds
            } else {
                r is Err
            }
        }),
{
    let len = phone.unicode_len();
    let mut digits = String::new();
    let mut i: usize = 0;
    while i < len
        invariant
            len == phone@.len(),
            i <= len,
            digits@ == digits_of(phone@.take(i as int)),
        decreases len - i,
    {
        let c = phone.get_char(i);
        if '0' <= c && c <= '9' {
            let piece = phone.substring_char(i, i + 1);
            digits.append(piece);
        }
        proof {
            let t = phone@.take(i as int + 1);
            assert(t.drop_last() =~= phone@.take(i as int));
            assert(t.last() == phone@[i as int]);
        }
        i += 1;
    }
    proof {
        assert(phone@.take(len as int) =~= phone@);
    }
    let dn = digits.as_str().unicode_len();
    if dn == 10 {
        let out = String::from_str("+1").concat(digits.as_str());
        Ok(out)
    } else if dn == 11 && digits.as_str().get_char(0) == '1' {
        let out = String::from_str("+").concat(digits.as_str());
        Ok(out)
    } else if dn >= 10 {
        let out = String::from_str("+").concat(digits.as_str());
        Ok(out)
    } else {
        Err(String::from_str("Invalid phone number: must have at least 10 digits"))
    }
}

} // verus!
