//! Input validation: field checks that return a typed error naming the
//! field, a message, and a stable error code.

use vstd::prelude::*;
use vstd::string::*;
use crate::strutil::{
    spec_contains_substr, contains_substr, spec_starts_with, starts_with_str, str_eq, is_digit,
    is_hex_char, is_hex_char_exec, push_char,
};
use crate::textenc::{lower_of, lowercase};
use crate::ident::{spec_is_object_id_hex, is_object_id_hex};

verus! {

/// One failed field check.
#[derive(Debug, Clone)]
pub struct ValidationError {
    pub field: String,
    pub message: String,
    pub error_code: String,
}

impl ValidationError {
    /// A failed check of `field` with its message and stable code.
    pub fn new(field: &str, message: &str, error_code: &str) -> (r: ValidationError)
        ensures
            r.field@ == field@,
            r.message@ == message@,
            r.error_code@ == error_code@,
    {
        ValidationError {
            field: field.to_owned(),
            message: message.to_owned(),
            error_code: error_code.to_owned(),
        }
    }
}

/// The outcome of one field check.
pub type ValidationResult<T> = Result<T, ValidationError>;

/// Whether a document id has the accepted shape: 24 hex characters. An empty
/// id and a malformed id carry different codes.
pub fn validate_object_id(id: &str, field_name: &str) -> (r: ValidationResult<()>)
    ensures
        match r {
            Ok(()) => spec_is_object_id_hex(id@),
            Err(e) => !spec_is_object_id_hex(id@) && e.field@ == field_name@ && e.error_code@ == (
            if id@.len() == 0 {
                ("EMPTY_ID")@
            } else {
                ("INVALID_OBJECT_ID")@
            }),
        },
{
    if id.unicode_len() == 0 {
        return Err(ValidationError::new(field_name, "ID cannot be empty", "EMPTY_ID"));
    }
    if !is_object_id_hex(id) {
        return Err(
            ValidationError::new(field_name, "Invalid ObjectId format", "INVALID_OBJECT_ID"),
        );
    }
    Ok(())
}

/// Whether a property id has the accepted document-id shape.
pub fn validate_property_id(property_id: &str) -> (r: ValidationResult<()>)
    ensures
        r is Ok <==> spec_is_object_id_hex(property_id@),
{
    validate_object_id(property_id, "property_id")
}

/// Whether a user id has the accepted document-id shape.
pub fn validate_user_id(user_id: &str) -> (r: ValidationResult<()>)
    ensures
        r is Ok <==> spec_is_object_id_hex(user_id@),
{
    validate_object_id(user_id, "user_id")
}

/// Whether an email address looks plausible: non-empty, holding `@` and `.`,
/// at most 254 characters.
pub fn validate_email(email: &str) -> (r: ValidationResult<()>)
    ensures
        r is Ok <==> (email@.len() > 0 && spec_contains_substr(email@, ("@")@)
            && spec_contains_substr(email@, (".")@) && email@.len() <= 254),
        match r {
            Ok(()) => true,
            Err(e) => e.error_code@ == (if email@.len() == 0 {
                ("EMPTY_EMAIL")@
            } else if !(spec_contains_substr(email@, ("@")@) && spec_contains_substr(
                email@,
                (".")@,
            )) {
                ("INVALID_EMAIL_FORMAT")@
            } else {
                ("EMAIL_TOO_LONG")@
            }),
        },
{
    if email.unicode_len() == 0 {
        return Err(ValidationError::new("email", "Email cannot be empty", "EMPTY_EMAIL"));
    }
    if !contains_substr(email, "@") || !contains_substr(email, ".") {
        return Err(ValidationError::new("email", "Invalid email format", "INVALID_EMAIL_FORMAT"));
    }
    if email.unicode_len() > 254 {
        return Err(ValidationError::new("email", "Email too long", "EMAIL_TOO_LONG"));
    }
    Ok(())
}

/// Whether a URL is acceptable: non-empty, naming a web protocol, at most
/// 2048 characters.
pub fn validate_url(url: &str, field_name: &str) -> (r: ValidationResult<()>)
    ensures
        r is Ok <==> (url@.len() > 0 && (spec_starts_with(url@, ("http://")@) || spec_starts_with(
            url@,
            ("https://")@,
        )) && url@.len() <= 2048),
        match r {
            Ok(()) => true,
            Err(e) => e.field@ == field_name@ && e.error_code@ == (if url@.len() == 0 {
                ("EMPTY_URL")@
            } else if !(spec_starts_with(url@, ("http://")@) || spec_starts_with(
                url@,
                ("https://")@,
            )) {
                ("INVALID_URL_SCHEME")@
            } else {
                ("URL_TOO_LONG")@
            }),
        },
{
    if url.unicode_len() == 0 {
        return Err(ValidationError::new(field_name, "URL cannot be empty", "EMPTY_URL"));
    }
    if !starts_with_str(url, "http://") && !starts_with_str(url, "https://") {
        return Err(
            ValidationError::new(
                field_name,
                "URL must start with http:// or https://",
                "INVALID_URL_SCHEME",
            ),
        );
    }
    if url.unicode_len() > 2048 {
        return Err(ValidationError::new(field_name, "URL too long", "URL_TOO_LONG"));
    }
    Ok(())
}

/// Whether a price is acceptable: positive and at most one trillion.
pub fn validate_price(price: i64, field_name: &str) -> (r: ValidationResult<()>)
    ensures
        r is Ok <==> (0 < price <= 1000000000000),
        match r {
            Ok(()) => true,
            Err(e) => e.field@ == field_name@ && e.error_code@ == (if price < 0 {
                ("NEGATIVE_PRICE")@
            } else if price == 0 {
                ("ZERO_PRICE")@
            } else {
                ("PRICE_TOO_HIGH")@
            }),
        },
{
    if price < 0 {
        return Err(ValidationError::new(field_name, "Price cannot be negative", "NEGATIVE_PRICE"));
    }
    if price == 0 {
        return Err(ValidationError::new(field_name, "Price cannot be zero", "ZERO_PRICE"));
    }
    if price > 1000000000000i64 {
        return Err(ValidationError::new(field_name, "Price too high", "PRICE_TOO_HIGH"));
    }
    Ok(())
}

/// Whether a text's length lies within the given bounds.
pub fn validate_text_length(text: &str, field_name: &str, min_length: usize, max_length: usize)
    -> (r: ValidationResult<()>)
    ensures
        r is Ok <==> (min_length <= text@.len() <= max_length),
        match r {
            Ok(()) => true,
            Err(e) => e.field@ == field_name@ && e.error_code@ == (if text@.len() < min_length {
                ("TEXT_TOO_SHORT")@
            } else {
                ("TEXT_TOO_LONG")@
            }),
        },
{
    let len = text.unicode_len();
    if len < min_length {
        return Err(ValidationError::new(field_name, "Text too short", "TEXT_TOO_SHORT"));
    }
    if len > max_length {
        return Err(ValidationError::new(field_name, "Text too long", "TEXT_TOO_LONG"));
    }
    Ok(())
}

/// Whether every character of the sequence is ASCII whitespace.
pub open spec fn spec_all_whitespace(s: Seq<char>) -> bool {
    forall|i: int| 0 <= i < s.len() ==> (s[i] == ' ' || s[i] == '\t' || s[i] == '\n' || s[i] == '\r')
}

fn all_whitespace(s: &str) -> (r: bool)
    ensures
        r == spec_all_whitespace(s@),
{
    let len = s.unicode_len();
    let mut i: usize = 0;
    while i < len
        invariant
            len == s@.len(),
            0 <= i <= len,
            forall|j: int|
                0 <= j < i ==> (s@[j] == ' ' || s@[j] == '\t' || s@[j] == '\n' || s@[j] == '\r'),
        decreases len - i,
    {
        let c = s.get_char(i);
        if !(c == ' ' || c == '\t' || c == '\n' || c == '\r') {
            return false;
        }
        i += 1;
    }
    true
}

/// Whether a property name is acceptable: 3 to 100 characters, not
/// whitespace only.
pub fn validate_property_name(name: &str) -> (r: ValidationResult<()>)
    ensures
        r is Ok <==> (3 <= name@.len() <= 100 && !spec_all_whitespace(name@)),
        match r {
            Ok(()) => true,
            Err(e) => e.field@ == ("property_name")@ && e.error_code@ == (if name@.len() < 3 {
                ("TEXT_TOO_SHORT")@
            } else if name@.len() > 100 {
                ("TEXT_TOO_LONG")@
            } else {
                ("WHITESPACE_ONLY")@
            }),
        },
{
    match validate_text_length(name, "property_name", 3, 100) {
        Ok(()) => (),
        Err(e) => {
            return Err(e);
        },
    }
    if all_whitespace(name) {
        return Err(
            ValidationError::new(
                "property_name",
                "Property name cannot be only whitespace",
                "WHITESPACE_ONLY",
            ),
        );
    }
    Ok(())
}

/// Whether a location is acceptable: 3 to 200 characters, not whitespace
/// only.
pub fn validate_location(location: &str) -> (r: ValidationResult<()>)
    ensures
        r is Ok <==> (3 <= location@.len() <= 200 && !spec_all_whitespace(location@)),
        match r {
            Ok(()) => true,
            Err(e) => e.field@ == ("location")@ && e.error_code@ == (if location@.len() < 3 {
                ("TEXT_TOO_SHORT")@
            } else if location@.len() > 200 {
                ("TEXT_TOO_LONG")@
            } else {
                ("WHITESPACE_ONLY")@
            }),
        },
{
    match validate_text_length(location, "location", 3, 200) {
        Ok(()) => (),
        Err(e) => {
            return Err(e);
        },
    }
    if all_whitespace(location) {
        return Err(
            ValidationError::new("location", "Location cannot be only whitespace", "WHITESPACE_ONLY"),
        );
    }
    Ok(())
}

/// Whether an image URL is acceptable: the URL shape decides; an uncommon
/// extension is tolerated.
pub fn validate_image_url(url: &str) -> (r: ValidationResult<()>)
    ensures
        r is Ok <==> (url@.len() > 0 && (spec_starts_with(url@, ("http://")@) || spec_starts_with(
            url@,
            ("https://")@,
        )) && url@.len() <= 2048),
{
    validate_url(url, "image_url")
}

/// Whether a scan URL is acceptable: a valid URL holding a `/scan/` segment.
pub fn validate_scan_url(url: &str) -> (r: ValidationResult<()>)
    ensures
        r is Ok <==> (url@.len() > 0 && (spec_starts_with(url@, ("http://")@) || spec_starts_with(
            url@,
            ("https://")@,
        )) && url@.len() <= 2048 && spec_contains_substr(url@, ("/scan/")@)),
        match r {
            Ok(()) => true,
            Err(e) => e.field@ == ("scan_url")@ && e.error_code@ == (if url@.len() == 0 {
                ("EMPTY_URL")@
            } else if !(spec_starts_with(url@, ("http://")@) || spec_starts_with(
                url@,
                ("https://")@,
            )) {
                ("INVALID_URL_SCHEME")@
            } else if url@.len() > 2048 {
                ("URL_TOO_LONG")@
            } else {
                ("INVALID_SCAN_URL_FORMAT")@
            }),
        },
{
    match validate_url(url, "scan_url") {
        Ok(()) => (),
        Err(e) => {
            return Err(e);
        },
    }
    if !contains_substr(url, "/scan/") {
        return Err(
            ValidationError::new(
                "scan_url",
                "Invalid scan URL format - must contain /scan/",
                "INVALID_SCAN_URL_FORMAT",
            ),
        );
    }
    Ok(())
}

/// Whether a character is a phone-number separator dropped before checking.
pub open spec fn spec_phone_separator(c: char) -> bool {
    c == ' ' || c == '-' || c == '(' || c == ')' || c == '+'
}

/// The phone number with its separators dropped.
pub open spec fn spec_phone_cleaned(s: Seq<char>) -> Seq<char>
    decreases s.len(),
{
    if s.len() == 0 {
        seq![]
    } else {
        let rest = spec_phone_cleaned(s.drop_last());
        if spec_phone_separator(s.last()) {
            rest
        } else {
            rest.push(s.last())
        }
    }
}

fn phone_cleaned(s: &str) -> (r: String)
    ensures
        r@ == spec_phone_cleaned(s@),
{
    let len = s.unicode_len();
    let mut out = String::new();
    let mut i: usize = 0;
    assert(s@.subrange(0, 0) =~= Seq::<char>::empty());
    while i < len
        invariant
            len == s@.len(),
            0 <= i <= len,
            out@ == spec_phone_cleaned(s@.subrange(0, i as int)),
        decreases len - i,
    {
        proof {
            assert(s@.subrange(0, i + 1).drop_last() =~= s@.subrange(0, i as int));
            assert(s@.subrange(0, i + 1).last() == s@[i as int]);
        }
        let c = s.get_char(i);
        if !(c == ' ' || c == '-' || c == '(' || c == ')' || c == '+') {
            push_char(&mut out, c);
        }
        i += 1;
    }
    assert(s@.subrange(0, len as int) =~= s@);
    out
}

/// Whether a phone number is acceptable: once separators are dropped, 7 to 15
/// characters, all decimal digits.
pub fn validate_phone_number(phone: &str) -> (r: ValidationResult<()>)
    ensures
        r is Ok <==> (phone@.len() > 0 && 7 <= spec_phone_cleaned(phone@).len() <= 15 && (
        forall|i: int|
            0 <= i < spec_phone_cleaned(phone@).len() ==> is_digit(
                #[trigger] spec_phone_cleaned(phone@)[i],
            ))),
        match r {
            Ok(()) => true,
            Err(e) => e.field@ == ("phone")@ && e.error_code@ == (if phone@.len() == 0 {
                ("EMPTY_PHONE")@
            } else if spec_phone_cleaned(phone@).len() < 7 || spec_phone_cleaned(phone@).len()
                > 15 {
                ("INVALID_PHONE_LENGTH")@
            } else {
                ("INVALID_PHONE_CHARACTERS")@
            }),
        },
{
    if phone.unicode_len() == 0 {
        return Err(ValidationError::new("phone", "Phone number cannot be empty", "EMPTY_PHONE"));
    }
    let cleaned = phone_cleaned(phone);
    let clen = cleaned.as_str().unicode_len();
    if clen < 7 || clen > 15 {
        return Err(
            ValidationError::new(
                "phone",
                "Phone number must be between 7 and 15 digits",
                "INVALID_PHONE_LENGTH",
            ),
        );
    }
    let cs = cleaned.as_str();
    let mut i: usize = 0;
    while i < clen
        invariant
            clen == cs@.len(),
            cs@ == spec_phone_cleaned(phone@),
            phone@.len() > 0,
            7 <= clen <= 15,
            0 <= i <= clen,
            forall|j: int| 0 <= j < i ==> is_digit(#[trigger] cs@[j]),
        decreases clen - i,
    {
        let c = cs.get_char(i);
        let d = c >= '0' && c <= '9';
        proof {
            if d {
                assert(c == '0' || c == '1' || c == '2' || c == '3' || c == '4' || c == '5' || c
                    == '6' || c == '7' || c == '8' || c == '9');
            }
        }
        if !d {
            return Err(
                ValidationError::new(
                    "phone",
                    "Phone number can only contain digits and separators",
                    "INVALID_PHONE_CHARACTERS",
                ),
            );
        }
        i += 1;
    }
    Ok(())
}

/// Whether a password is acceptable: 8 to 128 characters with at least one
/// ASCII lowercase letter, one uppercase letter, and one digit.
pub fn validate_password(password: &str) -> (r: ValidationResult<()>)
    ensures
        r is Ok <==> (8 <= password@.len() <= 128 && (exists|i: int|
            0 <= i < password@.len() && 'a' <= #[trigger] password@[i] <= 'z') && (exists|i: int|
            0 <= i < password@.len() && 'A' <= #[trigger] password@[i] <= 'Z') && (exists|i: int|
            0 <= i < password@.len() && '0' <= #[trigger] password@[i] <= '9')),
        match r {
            Ok(()) => true,
            Err(e) => e.field@ == ("password")@ && e.error_code@ == (if password@.len() < 8 {
                ("PASSWORD_TOO_SHORT")@
            } else if password@.len() > 128 {
                ("PASSWORD_TOO_LONG")@
            } else {
                ("PASSWORD_WEAK")@
            }),
        },
{
    let len = password.unicode_len();
    if len < 8 {
        return Err(
            ValidationError::new(
                "password",
                "Password must be at least 8 characters long",
                "PASSWORD_TOO_SHORT",
            ),
        );
    }
    if len > 128 {
        return Err(ValidationError::new("password", "Password too long", "PASSWORD_TOO_LONG"));
    }
    let mut has_lowercase = false;
    let mut has_uppercase = false;
    let mut has_digit = false;
    let mut i: usize = 0;
    while i < len
        invariant
            len == password@.len(),
            0 <= i <= len,
            has_lowercase == (exists|j: int|
                0 <= j < i && 'a' <= #[trigger] password@[j] <= 'z'),
            has_uppercase == (exists|j: int|
                0 <= j < i && 'A' <= #[trigger] password@[j] <= 'Z'),
            has_digit == (exists|j: int| 0 <= j < i && '0' <= #[trigger] password@[j] <= '9'),
        decreases len - i,
    {
        let c = password.get_char(i);
        if c >= 'a' && c <= 'z' {
            has_lowercase = true;
        }
        if c >= 'A' && c <= 'Z' {
            has_uppercase = true;
        }
        if c >= '0' && c <= '9' {
            has_digit = true;
        }
        i += 1;
    }
    if !has_lowercase || !has_uppercase || !has_digit {
        return Err(
            ValidationError::new(
                "password",
                "Password must contain at least one lowercase letter, one uppercase letter, and one digit",
                "PASSWORD_WEAK",
            ),
        );
    }
    Ok(())
}

/// Whether pagination parameters are acceptable: page (default 1) positive,
/// limit (default 20) positive and at most 100; the resolved pair.
pub fn validate_pagination(page: Option<u32>, limit: Option<u32>) -> (r: ValidationResult<
    (u32, u32),
>)
    ensures
        ({
            let p = match page {
                Some(p) => p,
                None => 1u32,
            };
            let l = match limit {
                Some(l) => l,
                None => 20u32,
            };
            match r {
                Ok(pair) => p >= 1 && 1 <= l <= 100 && pair == (p, l),
                Err(e) => (p == 0 || l == 0 || l > 100) && e.error_code@ == (if p == 0 {
                    ("INVALID_PAGE")@
                } else if l == 0 {
                    ("INVALID_LIMIT")@
                } else {
                    ("LIMIT_TOO_HIGH")@
                }),
            }
        }),
{
    let page = match page {
        Some(p) => p,
        None => 1,
    };
    let limit = match limit {
        Some(l) => l,
        None => 20,
    };
    if page == 0 {
        return Err(
            ValidationError::new("page", "Page number must be greater than 0", "INVALID_PAGE"),
        );
    }
    if limit == 0 {
        return Err(ValidationError::new("limit", "Limit must be greater than 0", "INVALID_LIMIT"));
    }
    if limit > 100 {
        return Err(ValidationError::new("limit", "Limit cannot exceed 100", "LIMIT_TOO_HIGH"));
    }
    Ok((page, limit))
}

/// Whether a search query is acceptable: 2 to 100 characters.
pub fn validate_search_query(query: &str) -> (r: ValidationResult<()>)
    ensures
        r is Ok <==> (2 <= query@.len() <= 100),
        match r {
            Ok(()) => true,
            Err(e) => e.error_code@ == (if query@.len() == 0 {
                ("EMPTY_QUERY")@
            } else if query@.len() < 2 {
                ("QUERY_TOO_SHORT")@
            } else {
                ("QUERY_TOO_LONG")@
            }),
        },
{
    let len = query.unicode_len();
    if len == 0 {
        return Err(ValidationError::new("query", "Search query cannot be empty", "EMPTY_QUERY"));
    }
    if len < 2 {
        return Err(
            ValidationError::new(
                "query",
                "Search query must be at least 2 characters",
                "QUERY_TOO_SHORT",
            ),
        );
    }
    if len > 100 {
        return Err(ValidationError::new("query", "Search query too long", "QUERY_TOO_LONG"));
    }
    Ok(())
}

/// Whether a property action is one of the known listings, compared through
/// its lowercase form: "for sale", "for rent" or "for lease".
pub fn validate_property_action(action: &str) -> (r: ValidationResult<()>)
    ensures
        r is Ok <==> (lower_of(action@) == ("for sale")@ || lower_of(action@) == ("for rent")@
            || lower_of(action@) == ("for lease")@),
{
    let lowered = lowercase(action);
    let la = lowered.as_str();
    if str_eq(la, "for sale") || str_eq(la, "for rent") || str_eq(la, "for lease") {
        Ok(())
    } else {
        Err(
            ValidationError::new(
                "action",
                "Invalid property action. Must be 'for sale', 'for rent', or 'for lease'",
                "INVALID_ACTION",
            ),
        )
    }
}

/// Whether a blockchain address has the accepted shape: `0x` followed by 40
/// hex characters.
pub fn validate_blockchain_address(address: &str, field_name: &str) -> (r: ValidationResult<()>)
    ensures
        r is Ok <==> (address@.len() == 42 && spec_starts_with(address@, ("0x")@) && (
        forall|i: int| 2 <= i < 42 ==> is_hex_char(#[trigger] address@[i]))),
        match r {
            Ok(()) => true,
            Err(e) => e.field@ == field_name@ && e.error_code@ == (if address@.len() == 0 {
                ("EMPTY_ADDRESS")@
            } else {
                ("INVALID_ADDRESS_FORMAT")@
            }),
        },
{
    let len = address.unicode_len();
    if len == 0 {
        return Err(
            ValidationError::new(field_name, "Blockchain address cannot be empty", "EMPTY_ADDRESS"),
        );
    }
    if len == 42 && starts_with_str(address, "0x") {
        let mut i: usize = 2;
        let mut all_hex = true;
        while i < 42
            invariant
                len == address@.len(),
                len == 42,
                2 <= i <= 42,
                all_hex == (forall|j: int| 2 <= j < i ==> is_hex_char(#[trigger] address@[j])),
            decreases 42 - i,
        {
            if !is_hex_char_exec(address.get_char(i)) {
                all_hex = false;
                proof {
                    assert(!is_hex_char(address@[i as int]));
                }
                i = 42;
            } else {
                i += 1;
            }
        }
        if all_hex {
            return Ok(());
        }
    }
    Err(
        ValidationError::new(
            field_name,
            "Invalid blockchain address format",
            "INVALID_ADDRESS_FORMAT",
        ),
    )
}

/// Collects field-check failures, reporting the first or all of them.
pub struct ValidationBuilder {
    errors: Vec<ValidationError>,
}

impl ValidationBuilder {
    /// The failures collected so far.
    pub closed spec fn spec_errors(&self) -> Seq<ValidationError> {
        self.errors@
    }

    /// An empty collector.
    pub fn new() -> (r: ValidationBuilder)
        ensures
            r.spec_errors().len() == 0,
    {
        ValidationBuilder { errors: Vec::new() }
    }

    /// The collector with one check's outcome folded in: a failure is kept,
    /// a success changes nothing.
    pub fn validate(self, result: ValidationResult<()>) -> (r: ValidationBuilder)
        ensures
            match result {
                Ok(()) => r.spec_errors() == self.spec_errors(),
                Err(e) => r.spec_errors() == self.spec_errors().push(e),
            },
    {
        let mut b = self;
        match result {
            Ok(()) => (),
            Err(e) => {
                b.errors.push(e);
            },
        }
        b
    }

    /// Succeeds when no check failed; otherwise the first failure.
    pub fn build(self) -> (r: ValidationResult<()>)
        ensures
            (r is Ok) == (self.spec_errors().len() == 0),
            match r {
                Ok(()) => true,
                Err(e) => e == self.spec_errors()[0],
            },
    {
        if self.errors.len() == 0 {
            Ok(())
        } else {
            let mut errors = self.errors;
            let first = errors.remove(0);
            Err(first)
        }
    }

    /// Succeeds when no check failed; otherwise all failures, in order.
    pub fn build_all_errors(self) -> (r: Result<(), Vec<ValidationError>>)
        ensures
            (r is Ok) == (self.spec_errors().len() == 0),
            match r {
                Ok(()) => true,
                Err(es) => es@ == self.spec_errors(),
            },
    {
        if self.errors.len() == 0 {
            Ok(())
        } else {
            Err(self.errors)
        }
    }
}

impl Default for ValidationBuilder {
    /// An empty collector.
    fn default() -> (r: ValidationBuilder)
        ensures
            r.spec_errors().len() == 0,
    {
        ValidationBuilder::new()
    }
}

} // verus!
