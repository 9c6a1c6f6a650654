//! Input validation helpers: phone and email shape checks, and the
//! procurement form check with its JSON-rendered error map.

use vstd::prelude::*;
use crate::records::{Instant, Money};
use crate::text::all_space;
use vstd::string::StringSliceAdditionalSpecFns;

verus! {

/// An ASCII digit.
pub open spec fn is_digit_char(c: char) -> bool {
    '0' <= c && c <= '9'
}

fn is_digit(c: char) -> (r: bool)
    ensures
        r == is_digit_char(c),
{
    '0' <= c && c <= '9'
}

/// A phone number reduced to what matters: its digits and plus signs.
pub open spec fn phone_cleaned(s: Seq<char>) -> Seq<char> {
    s.filter(|c: char| is_digit_char(c) || c == '+')
}

/// `s` without its leading run of plus signs.
pub open spec fn strip_leading_plus(s: Seq<char>) -> Seq<char>
    decreases s.len(),
{
    if s.len() > 0 && s[0] == '+' {
        strip_leading_plus(s.drop_first())
    } else {
        s
    }
}

/// Whether a phone number is acceptable: an absent phone is, and
/// otherwise its cleaned form must begin with `+`, be 11 to 16 characters
/// long, and hold nothing but digits after the plus signs.
pub open spec fn phone_valid(s: Seq<char>) -> bool {
    let c = phone_cleaned(s);
    if c.len() == 0 {
        true
    } else {
        &&& c[0] == '+'
        &&& 11 <= c.len() <= 16
        &&& forall|i: int|
            0 <= i < strip_leading_plus(c).len() ==> is_digit_char(
                #[trigger] strip_leading_plus(c)[i],
            )
    }
}

proof fn lemma_strip_plus_prefix(s: Seq<char>, i: int)
    requires
        0 <= i <= s.len(),
        forall|k: int| 0 <= k < i ==> #[trigger] s[k] == '+',
        i == s.len() || s[i] != '+',
    ensures
        strip_leading_plus(s) =~= s.subrange(i, s.len() as int),
    decreases i,
{
    if i == 0 {
        if s.len() > 0 && s[0] == '+' {
            assert(false);
        }
    } else {
        lemma_strip_plus_prefix(s.drop_first(), i - 1);
    }
}

/// Decides `phone_valid` on a phone string.
pub fn validate_phone(phone: &str) -> (r: bool)
    ensures
        r == phone_valid(phone@),
{
    broadcast use vstd::prelude::Seq::lemma_filter_push;

    let n = phone.unicode_len();
    let mut cleaned: Vec<char> = Vec::new();
    let mut i: usize = 0;
    proof {
        assert(phone@.subrange(0, 0) =~= Seq::<char>::empty());
        assert(Seq::<char>::empty().filter(|c: char| is_digit_char(c) || c == '+')
            =~= Seq::<char>::empty());
    }
    while i < n
        invariant
            i <= n,
            n == phone@.len(),
            cleaned@ =~= phone_cleaned(phone@.subrange(0, i as int)),
        decreases n - i,
    {
        proof {
            assert(phone@.subrange(0, i as int + 1) =~= phone@.subrange(0, i as int).push(
                phone@[i as int],
            ));
        }
        let c = phone.get_char(i);
        if is_digit(c) || c == '+' {
            cleaned.push(c);
        }
        i += 1;
    }
    proof {
        assert(phone@.subrange(0, n as int) =~= phone@);
    }
    let m = cleaned.len();
    if m == 0 {
        return true;
    }
    if cleaned[0] != '+' || m < 11 || m > 16 {
        return false;
    }
    let mut j: usize = 0;
    while j < m && cleaned[j] == '+'
        invariant
            j <= m,
            m == cleaned@.len(),
            forall|k: int| 0 <= k < j ==> #[trigger] cleaned@[k] == '+',
        decreases m - j,
    {
        j += 1;
    }
    proof {
        lemma_strip_plus_prefix(cleaned@, j as int);
    }
    let mut k = j;
    while k < m
        invariant
            j <= k <= m,
            m == cleaned@.len(),
            strip_leading_plus(cleaned@) =~= cleaned@.subrange(j as int, m as int),
            forall|t: int| j <= t < k ==> is_digit_char(#[trigger] cleaned@[t]),
        decreases m - k,
    {
        if !is_digit(cleaned[k]) {
            proof {
                assert(strip_leading_plus(cleaned@)[k - j] == cleaned@[k as int]);
            }
            return false;
        }
        k += 1;
    }
    proof {
        assert forall|i2: int|
            0 <= i2 < strip_leading_plus(cleaned@).len() implies is_digit_char(
            #[trigger] strip_leading_plus(cleaned@)[i2],
        ) by {
            assert(strip_leading_plus(cleaned@)[i2] == cleaned@[i2 + j]);
        }
    }
    true
}

/// Whether an email is acceptable, judged over its UTF-8 bytes: an
/// absent email is; otherwise exactly one `@`, something before it, and
/// after it a domain of more than two bytes holding a dot.
pub open spec fn email_valid(b: Seq<u8>) -> bool {
    if b.len() == 0 {
        true
    } else {
        exists|i: int|
            {
                &&& 0 <= i < b.len()
                &&& #[trigger] b[i] == 64
                &&& forall|j: int| 0 <= j < b.len() && j != i ==> #[trigger] b[j] != 64
                &&& i > 0
                &&& b.len() - i - 1 > 2
                &&& exists|k: int| i < k < b.len() && #[trigger] b[k] == 46
            }
    }
}

/// Decides `email_valid` on an email string's bytes.
pub fn validate_email(email: &str) -> (r: bool)
    ensures
        r == email_valid(email.spec_bytes()),
{
    let b = email.as_bytes();
    let n = b.len();
    if n == 0 {
        return true;
    }
    let mut at: usize = 0;
    let mut seen_at = false;
    let mut i: usize = 0;
    while i < n
        invariant
            i <= n,
            n == b@.len(),
            seen_at ==> at < i && b@[at as int] == 64 && (forall|j: int|
                0 <= j < i && j != at ==> #[trigger] b@[j] != 64),
            !seen_at ==> forall|j: int| 0 <= j < i ==> #[trigger] b@[j] != 64,
        decreases n - i,
    {
        if b[i] == 64 {
            if seen_at {
                proof {
                    assert forall|w: int|
                        0 <= w < b@.len() && #[trigger] b@[w] == 64 implies !(forall|j: int|
                        0 <= j < b@.len() && j != w ==> #[trigger] b@[j] != 64) by {
                        if w == at as int {
                            assert(b@[i as int] == 64);
                        } else {
                            assert(b@[at as int] == 64);
                        }
                    }
                }
                return false;
            }
            at = i;
            seen_at = true;
        }
        i += 1;
    }
    if !seen_at {
        return false;
    }
    if at == 0 {
        proof {
            assert forall|w: int|
                0 <= w < b@.len() && #[trigger] b@[w] == 64 implies !(w > 0) || !(forall|j: int|
                0 <= j < b@.len() && j != w ==> #[trigger] b@[j] != 64) by {
                if w != at as int {
                    assert(b@[at as int] == 64);
                }
            }
        }
        return false;
    }
    if n - at - 1 <= 2 {
        proof {
            assert forall|w: int|
                0 <= w < b@.len() && #[trigger] b@[w] == 64 && (forall|j: int|
                    0 <= j < b@.len() && j != w ==> #[trigger] b@[j] != 64) implies !(b@.len() - w
                - 1 > 2) by {
                assert(w == at as int) by {
                    if w != at as int {
                        assert(b@[at as int] == 64);
                    }
                }
            }
        }
        return false;
    }
    let mut k: usize = at + 1;
    while k < n
        invariant
            at < k <= n,
            n == b@.len(),
            forall|j: int| at < j < k ==> #[trigger] b@[j] != 46,
        decreases n - k,
    {
        if b[k] == 46 {
            return true;
        }
        k += 1;
    }
    proof {
        assert forall|w: int|
            0 <= w < b@.len() && #[trigger] b@[w] == 64 && (forall|j: int|
                0 <= j < b@.len() && j != w ==> #[trigger] b@[j] != 64) implies !(exists|k2: int|
            w < k2 < b@.len() && #[trigger] b@[k2] == 46) by {
            assert(w == at as int) by {
                if w != at as int {
                    assert(b@[at as int] == 64);
                }
            }
        }
    }
    false
}

/// One finding of the procurement form check.
#[derive(Clone, Copy, Debug, PartialEq, Eq, Structural)]
pub enum FormError {
    /// The title is blank.
    TitleRequired,
    /// The title exceeds 200 bytes.
    TitleTooLong,
    /// The description is blank.
    DescriptionRequired,
    /// The city is blank.
    CityRequired,
    /// The target amount is not positive.
    TargetNotPositive,
    /// The deadline is not in the future.
    DeadlineNotFuture,
}

impl FormError {
    /// The form field a finding belongs to.
    pub open spec fn spec_key(self) -> Seq<char> {
        match self {
            FormError::TitleRequired => "title"@,
            FormError::TitleTooLong => "title"@,
            FormError::DescriptionRequired => "description"@,
            FormError::CityRequired => "city"@,
            FormError::TargetNotPositive => "target_amount"@,
            FormError::DeadlineNotFuture => "deadline"@,
        }
    }

    /// The finding's human message.
    pub open spec fn spec_message(self) -> Seq<char> {
        match self {
            FormError::TitleRequired => "Название обязательно"@,
            FormError::TitleTooLong => "Название не должно превышать 200 символов"@,
            FormError::DescriptionRequired => "Описание обязательно"@,
            FormError::CityRequired => "Город обязателен"@,
            FormError::TargetNotPositive => "Целевая сумма должна быть положительной"@,
            FormError::DeadlineNotFuture => "Дедлайн должен быть в будущем"@,
        }
    }

    pub fn key(&self) -> (r: &'static str)
        ensures
            r@ == self.spec_key(),
    {
        match self {
            FormError::TitleRequired => "title",
            FormError::TitleTooLong => "title",
            FormError::DescriptionRequired => "description",
            FormError::CityRequired => "city",
            FormError::TargetNotPositive => "target_amount",
            FormError::DeadlineNotFuture => "deadline",
        }
    }

    pub fn message(&self) -> (r: &'static str)
        ensures
            r@ == self.spec_message(),
    {
        match self {
            FormError::TitleRequired => "Название обязательно",
            FormError::TitleTooLong => "Название не должно превышать 200 символов",
            FormError::DescriptionRequired => "Описание обязательно",
            FormError::CityRequired => "Город обязателен",
            FormError::TargetNotPositive => "Целевая сумма должна быть положительной",
            FormError::DeadlineNotFuture => "Дедлайн должен быть в будущем",
        }
    }
}

/// The findings of the form check, in checking order.
pub open spec fn form_errors_of(
    title: Seq<char>,
    title_bytes: Seq<u8>,
    description: Seq<char>,
    city: Seq<char>,
    target_amount: int,
    deadline: int,
    now: int,
) -> Seq<FormError> {
    let s0 = Seq::<FormError>::empty();
    let s1 = if all_space(title) {
        s0.push(FormError::TitleRequired)
    } else if title_bytes.len() > 200 {
        s0.push(FormError::TitleTooLong)
    } else {
        s0
    };
    let s2 = if all_space(description) {
        s1.push(FormError::DescriptionRequired)
    } else {
        s1
    };
    let s3 = if all_space(city) {
        s2.push(FormError::CityRequired)
    } else {
        s2
    };
    let s4 = if target_amount <= 0 {
        s3.push(FormError::TargetNotPositive)
    } else {
        s3
    };
    if deadline <= now {
        s4.push(FormError::DeadlineNotFuture)
    } else {
        s4
    }
}

/// One rendered `"key":"message"` entry.
pub open spec fn json_entry(e: FormError) -> Seq<char> {
    "\""@ + e.spec_key() + "\":\""@ + e.spec_message() + "\""@
}

/// The rendered entries, comma-separated.
pub open spec fn json_entries(s: Seq<FormError>) -> Seq<char>
    decreases s.len(),
{
    if s.len() == 0 {
        Seq::<char>::empty()
    } else if s.len() == 1 {
        json_entry(s[0])
    } else {
        json_entry(s[0]) + ","@ + json_entries(s.drop_first())
    }
}

/// The rendered error object: `{}` when nothing was found.
pub open spec fn json_of(s: Seq<FormError>) -> Seq<char> {
    if s.len() == 0 {
        "{}"@
    } else {
        "{"@ + json_entries(s) + "}"@
    }
}

proof fn lemma_json_entries_push(s: Seq<FormError>, e: FormError)
    requires
        s.len() >= 1,
    ensures
        json_entries(s.push(e)) =~= json_entries(s) + ","@ + json_entry(e),
    decreases s.len(),
{
    let p = s.push(e);
    assert(p[0] == s[0]);
    if s.len() == 1 {
        assert(p.drop_first() =~= seq![e]);
        assert(json_entries(p.drop_first()) =~= json_entry(e));
    } else {
        assert(p.drop_first() =~= s.drop_first().push(e));
        lemma_json_entries_push(s.drop_first(), e);
    }
}

/// Checks the procurement form and reports the findings.
pub fn procurement_form_errors(
    title: &str,
    description: &str,
    city: &str,
    target_amount: Money,
    deadline: Instant,
    now: Instant,
) -> (r: Vec<FormError>)
    ensures
        r@ =~= form_errors_of(
            title@,
            title.spec_bytes(),
            description@,
            city@,
            target_amount as int,
            deadline as int,
            now as int,
        ),
{
    let ghost s0 = Seq::<FormError>::empty();
    let mut r: Vec<FormError> = Vec::new();
    proof {
        assert(r@ =~= s0);
    }
    if crate::text::str_is_blank(title) {
        r.push(FormError::TitleRequired);
    } else if title.as_bytes().len() > 200 {
        r.push(FormError::TitleTooLong);
    }
    let ghost s1 = if all_space(title@) {
        s0.push(FormError::TitleRequired)
    } else if title.spec_bytes().len() > 200 {
        s0.push(FormError::TitleTooLong)
    } else {
        s0
    };
    proof {
        assert(r@ =~= s1);
    }
    if crate::text::str_is_blank(description) {
        r.push(FormError::DescriptionRequired);
    }
    let ghost s2 = if all_space(description@) {
        s1.push(FormError::DescriptionRequired)
    } else {
        s1
    };
    proof {
        assert(r@ =~= s2);
    }
    if crate::text::str_is_blank(city) {
        r.push(FormError::CityRequired);
    }
    let ghost s3 = if all_space(city@) {
        s2.push(FormError::CityRequired)
    } else {
        s2
    };
    proof {
        assert(r@ =~= s3);
    }
    if target_amount <= 0 {
        r.push(FormError::TargetNotPositive);
    }
    let ghost s4 = if target_amount <= 0 {
        s3.push(FormError::TargetNotPositive)
    } else {
        s3
    };
    proof {
        assert(r@ =~= s4);
    }
    if deadline <= now {
        r.push(FormError::DeadlineNotFuture);
    }
    r
}

/// Renders findings as a JSON object from field to message.
pub fn render_form_errors(errors: &Vec<FormError>) -> (r: String)
    ensures
        r@ == json_of(errors@),
{
    let n = errors.len();
    if n == 0 {
        return "{}".to_owned();
    }
    let mut acc = "{".to_owned();
    let mut i: usize = 0;
    while i < n
        invariant
            i <= n,
            n == errors@.len(),
            n > 0,
            acc@ =~= "{"@ + json_entries(errors@.subrange(0, i as int)),
        decreases n - i,
    {
        if i > 0 {
            acc = acc.concat(",");
        }
        acc = acc.concat("\"").concat(errors[i].key()).concat("\":\"").concat(
            errors[i].message(),
        ).concat("\"");
        proof {
            let pre = errors@.subrange(0, i as int);
            let cur = errors@.subrange(0, i as int + 1);
            assert(cur =~= pre.push(errors@[i as int]));
            if i > 0 {
                lemma_json_entries_push(pre, errors@[i as int]);
            } else {
                assert(cur =~= seq![errors@[0]]);
                assert(json_entries(cur) =~= json_entry(errors@[0]));
            }
            assert(acc@ =~= "{"@ + json_entries(cur));
        }
        i += 1;
    }
    proof {
        assert(errors@.subrange(0, n as int) =~= errors@);
    }
    let r = acc.concat("}");
    proof {
        assert(r@ =~= json_of(errors@));
    }
    r
}

/// Checks the procurement form and renders the findings as a JSON object
/// from field to message; the empty object means the form is acceptable.
pub fn validate_procurement_form(
    title: &str,
    description: &str,
    city: &str,
    target_amount: Money,
    deadline: Instant,
    now: Instant,
) -> (r: String)
    ensures
        r@ == json_of(
            form_errors_of(
                title@,
                title.spec_bytes(),
                description@,
                city@,
                target_amount as int,
                deadline as int,
                now as int,
            ),
        ),
{
    let errors = procurement_form_errors(title, description, city, target_amount, deadline, now);
    render_form_errors(&errors)
}

} // verus!
