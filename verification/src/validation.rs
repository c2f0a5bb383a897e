//! Input validation rules of the order service.

use vstd::prelude::*;

verus! {

use vstd::string::StringSliceAdditionalSpecFns;

/// A rejected input: which rule failed and, when there is one, a message.
#[derive(Clone, Debug)]
pub struct ValidationError {
    pub code: String,
    pub message: Option<String>,
}

/// Whether a byte is an ASCII digit.
pub open spec fn is_digit_byte(b: u8) -> bool {
    48 <= b <= 57
}

/// The digit part of a phone number: what follows the optional leading
/// plus sign.
pub open spec fn phone_digits(s: Seq<u8>) -> Seq<u8> {
    if s.len() > 0 && s[0] == 43 {
        s.skip(1)
    } else {
        s
    }
}

/// A well-formed phone number: an optional leading plus sign followed by
/// at least seven digits and nothing else.
pub open spec fn phone_ok(s: Seq<u8>) -> bool {
    phone_digits(s).len() >= 7 && forall|i: int|
        0 <= i < phone_digits(s).len() ==> is_digit_byte(#[trigger] phone_digits(s)[i])
}

/// Accepts exactly the well-formed phone numbers; any other text is
/// rejected under the `phone` rule.
pub fn validate_phone(phone: &str) -> (r: Result<(), ValidationError>)
    ensures
        r is Ok <==> phone_ok(phone.spec_bytes()),
        r matches Err(e) ==> e.code@ == "phone"@ && (e.message matches Some(m) && m@
            == "Incorrect phone format"@),
{
    let bytes = phone.as_bytes();
    let n = bytes.len();
    let start: usize = if n > 0 && bytes[0] == 43 {
        1
    } else {
        0
    };
    let ghost digits = if bytes@.len() > 0 && bytes@[0] == 43 {
        bytes@.skip(1)
    } else {
        bytes@
    };
    proof {
        assert(digits =~= bytes@.skip(start as int));
    }
    let mut ok = n - start >= 7;
    let mut i: usize = start;
    while i < n
        invariant
            start <= i <= n,
            n == bytes@.len(),
            digits =~= bytes@.skip(start as int),
            ok == (n - start >= 7 && forall|j: int|
                start <= j < i ==> is_digit_byte(#[trigger] bytes@[j])),
        decreases n - i,
    {
        if bytes[i] < 48 || bytes[i] > 57 {
            ok = false;
        }
        i += 1;
    }
    proof {
        assert(forall|j: int|
            0 <= j < digits.len() ==> #[trigger] digits[j] == bytes@[j + start]);
        let pd = phone_digits(phone.spec_bytes());
        assert(pd =~= digits);
        if ok {
            assert forall|j: int| 0 <= j < pd.len() implies is_digit_byte(
                #[trigger] pd[j],
            ) by {
                assert(pd[j] == bytes@[j + start]);
            }
            assert(phone_ok(phone.spec_bytes()));
        } else {
            if pd.len() >= 7 {
                let j = choose|j: int|
                    start <= j < n && !is_digit_byte(#[trigger] bytes@[j]);
                assert(pd[j - start] == bytes@[j]);
                assert(!is_digit_byte(pd[j - start]));
                assert(!phone_ok(phone.spec_bytes()));
            }
        }
    }
    if ok {
        Ok(())
    } else {
        Err(
            ValidationError {
                code: String::from_str("phone"),
                message: Some(String::from_str("Incorrect phone format")),
            },
        )
    }
}

} // verus!
