use vstd::prelude::*;

use crate::error::BootError;
use crate::text::{push_char, str_eq};

verus! {

/// A key and a value attached to an event.
pub struct Attribute {
    pub key: String,
    pub value: String,
}

/// An event emitted by a transaction.
pub struct Event {
    pub ty: String,
    pub attributes: Vec<Attribute>,
}

/// What a backend returns for a transaction: the events it emitted.
pub struct TxResponse {
    pub events: Vec<Event>,
}

/// Value of the first attribute with key `key`.
pub open spec fn attr_value(attrs: Seq<Attribute>, key: Seq<char>) -> Option<Seq<char>>
    decreases attrs.len(),
{
    if attrs.len() == 0 {
        None
    } else if attrs[0].key@ == key {
        Some(attrs[0].value@)
    } else {
        attr_value(attrs.drop_first(), key)
    }
}

/// Value of `key` in the first event of type `ty` that has that key.
pub open spec fn event_attr(events: Seq<Event>, ty: Seq<char>, key: Seq<char>) -> Option<Seq<char>>
    decreases events.len(),
{
    if events.len() == 0 {
        None
    } else if events[0].ty@ == ty && attr_value(events[0].attributes@, key) is Some {
        attr_value(events[0].attributes@, key)
    } else {
        event_attr(events.drop_first(), ty, key)
    }
}

/// Decimal value of a string of digits.
pub open spec fn digits_value(s: Seq<char>) -> int
    decreases s.len(),
{
    if s.len() == 0 {
        0
    } else {
        digits_value(s.drop_last()) * 10 + (s.last() as u32 - '0' as u32)
    }
}

/// Every character is a decimal digit.
pub open spec fn all_digits(s: Seq<char>) -> bool {
    forall|i: int| 0 <= i < s.len() ==> '0' <= #[trigger] s[i] <= '9'
}

/// The `u64` that `s` writes in decimal, with an optional leading `+`.
pub open spec fn parse_u64(s: Seq<char>) -> Option<u64> {
    let d = if s.len() > 0 && s[0] == '+' { s.drop_first() } else { s };
    if d.len() > 0 && all_digits(d) && digits_value(d) <= u64::MAX {
        Some(digits_value(d) as u64)
    } else {
        None
    }
}

/// Key of the attribute that holds the address of a new instance.
pub open spec fn address_key() -> (Seq<char>, Seq<char>) {
    ("instantiate"@, "_contract_address"@)
}

/// Key of the attribute that holds the identifier of newly stored code.
pub open spec fn code_id_key() -> (Seq<char>, Seq<char>) {
    ("store_code"@, "code_id"@)
}

proof fn lemma_digits_prefix(s: Seq<char>, j: int)
    requires
        0 <= j <= s.len(),
        all_digits(s),
    ensures
        0 <= digits_value(s.subrange(0, j)) <= digits_value(s),
    decreases s.len(),
{
    if s.len() > 0 {
        if j == s.len() {
            assert(s.subrange(0, j) =~= s);
            lemma_digits_prefix(s.drop_last(), s.len() - 1);
            assert(s.drop_last().subrange(0, s.len() - 1) =~= s.drop_last());
        } else {
            lemma_digits_prefix(s.drop_last(), j);
            assert(s.drop_last().subrange(0, j) =~= s.subrange(0, j));
        }
    } else {
        assert(s.subrange(0, j).len() == 0);
    }
}

/// The `u64` that `s` writes in decimal, as `parse_u64` states.
pub fn parse_code_id(s: &str) -> (r: Option<u64>)
    ensures
        r == parse_u64(s@),
{
    let n = s.unicode_len();
    let signed = n > 0 && s.get_char(0) == '+';
    let start: usize = if signed { 1 } else { 0 };
    let ghost d = s@.subrange(start as int, n as int);
    assert(d =~= (if s@.len() > 0 && s@[0] == '+' { s@.drop_first() } else { s@ }));
    if start == n {
        return None;
    }
    let mut value: u64 = 0;
    let mut i = start;
    while i < n
        invariant
            n == s@.len(),
            start <= i <= n,
            d == s@.subrange(start as int, n as int),
            d == (if s@.len() > 0 && s@[0] == '+' { s@.drop_first() } else { s@ }),
            forall|k: int| start <= k < i ==> '0' <= #[trigger] s@[k] <= '9',
            value == digits_value(s@.subrange(start as int, i as int)),
        decreases n - i,
    {
        let c = s.get_char(i);
        proof {
            let p = s@.subrange(start as int, i + 1);
            assert(p.drop_last() =~= s@.subrange(start as int, i as int));
        }
        if c < '0' || c > '9' {
            assert(!all_digits(d)) by {
                assert(d[i - start] == c);
            }
            return None;
        }
        let digit = (c as u32 - '0' as u32) as u64;
        match value.checked_mul(10) {
            None => {
                proof { lemma_rest_digits(s@, start as int, i as int + 1, n as int, d); }
                return None;
            },
            Some(v) => match v.checked_add(digit) {
                None => {
                    proof { lemma_rest_digits(s@, start as int, i as int + 1, n as int, d); }
                    return None;
                },
                Some(w) => {
                    value = w;
                },
            },
        }
        i = i + 1;
    }
    assert(s@.subrange(start as int, n as int) =~= d);
    assert(all_digits(d)) by {
        assert forall|k: int| 0 <= k < d.len() implies '0' <= #[trigger] d[k] <= '9' by {
            assert(d[k] == s@[start + k]);
        }
    }
    Some(value)
}

/// Once a prefix of digits is worth more than `u64::MAX`, so is the whole.
proof fn lemma_rest_digits(s: Seq<char>, start: int, i: int, n: int, d: Seq<char>)
    requires
        0 <= start <= i <= n == s.len(),
        d == s.subrange(start, n),
        forall|k: int| start <= k < i ==> '0' <= #[trigger] s[k] <= '9',
        digits_value(s.subrange(start, i)) > u64::MAX,
    ensures
        !(d.len() > 0 && all_digits(d) && digits_value(d) <= u64::MAX),
{
    if all_digits(d) {
        assert(d.subrange(0, i - start) =~= s.subrange(start, i));
        lemma_digits_prefix(d, i - start);
    }
}

/// Finds the value of the first attribute with key `key`.
fn find_attr(attrs: &Vec<Attribute>, key: &str) -> (r: Option<String>)
    ensures
        match attr_value(attrs@, key@) {
            Some(v) => r is Some && r->0@ == v,
            None => r is None,
        },
{
    let mut j: usize = 0;
    assert(attrs@.subrange(0, attrs@.len() as int) =~= attrs@);
    while j < attrs.len()
        invariant
            j <= attrs@.len(),
            attr_value(attrs@, key@) == attr_value(attrs@.subrange(j as int, attrs@.len() as int), key@),
        decreases attrs@.len() - j,
    {
        let ghost rest = attrs@.subrange(j as int, attrs@.len() as int);
        assert(rest.drop_first() =~= attrs@.subrange(j + 1, attrs@.len() as int));
        assert(rest[0] == attrs@[j as int]);
        if str_eq(attrs[j].key.as_str(), key) {
            return Some(attrs[j].value.clone());
        }
        j = j + 1;
    }
    assert(attrs@.subrange(j as int, attrs@.len() as int).len() == 0);
    None
}

/// Finds the value of `key` in the first event of type `ty` that has it.
pub fn find_event_attr(events: &Vec<Event>, ty: &str, key: &str) -> (r: Option<String>)
    ensures
        match event_attr(events@, ty@, key@) {
            Some(v) => r is Some && r->0@ == v,
            None => r is None,
        },
{
    let mut i: usize = 0;
    assert(events@.subrange(0, events@.len() as int) =~= events@);
    while i < events.len()
        invariant
            i <= events@.len(),
            event_attr(events@, ty@, key@) == event_attr(events@.subrange(i as int, events@.len() as int), ty@, key@),
        decreases events@.len() - i,
    {
        let ghost rest = events@.subrange(i as int, events@.len() as int);
        assert(rest.drop_first() =~= events@.subrange(i + 1, events@.len() as int));
        assert(rest[0] == events@[i as int]);
        if str_eq(events[i].ty.as_str(), ty) {
            let found = find_attr(&events[i].attributes, key);
            if found.is_some() {
                return found;
            }
        }
        i = i + 1;
    }
    assert(events@.subrange(i as int, events@.len() as int).len() == 0);
    None
}

/// The decimal digit character for `d < 10`.
pub open spec fn digit_char(d: nat) -> char {
    if d == 0 { '0' }
    else if d == 1 { '1' }
    else if d == 2 { '2' }
    else if d == 3 { '3' }
    else if d == 4 { '4' }
    else if d == 5 { '5' }
    else if d == 6 { '6' }
    else if d == 7 { '7' }
    else if d == 8 { '8' }
    else { '9' }
}

/// `n` written in decimal, without leading zeros.
pub open spec fn decimal(n: nat) -> Seq<char>
    decreases n,
{
    if n < 10 {
        seq![digit_char(n)]
    } else {
        decimal(n / 10).push(digit_char(n % 10))
    }
}

fn digit_of(d: u64) -> (c: char)
    requires
        d < 10,
    ensures
        c == digit_char(d as nat),
{
    if d == 0 { '0' }
    else if d == 1 { '1' }
    else if d == 2 { '2' }
    else if d == 3 { '3' }
    else if d == 4 { '4' }
    else if d == 5 { '5' }
    else if d == 6 { '6' }
    else if d == 7 { '7' }
    else if d == 8 { '8' }
    else { '9' }
}

/// `n` written in decimal.
pub fn decimal_string(n: u64) -> (r: String)
    ensures
        r@ == decimal(n as nat),
    decreases n,
{
    if n < 10 {
        let mut s = String::new();
        push_char(&mut s, digit_of(n));
        assert(s@ =~= seq![digit_char(n as nat)]);
        s
    } else {
        let mut s = decimal_string(n / 10);
        push_char(&mut s, digit_of(n % 10));
        s
    }
}

proof fn lemma_digit_value(d: nat)
    requires
        d < 10,
    ensures
        digit_char(d) as u32 - '0' as u32 == d,
        '0' <= digit_char(d) <= '9',
{
}

/// A decimal numeral reads back as the number it was written from.
pub proof fn lemma_decimal_parses(n: nat)
    ensures
        decimal(n).len() > 0,
        decimal(n)[0] != '+',
        all_digits(decimal(n)),
        digits_value(decimal(n)) == n,
    decreases n,
{
    lemma_digit_value(n % 10);
    if n < 10 {
        let s = decimal(n);
        assert(s.drop_last() =~= Seq::<char>::empty());
        assert(s.last() == digit_char(n));
        assert(n % 10 == n);
        assert(digits_value(s) == digits_value(s.drop_last()) * 10 + (s.last() as u32 - '0' as u32));
    } else {
        lemma_decimal_parses(n / 10);
        let s = decimal(n);
        assert(n == (n / 10) * 10 + n % 10);
        assert(s.last() == digit_char(n % 10));
        assert(digits_value(s) == digits_value(s.drop_last()) * 10 + (s.last() as u32 - '0' as u32));
        assert(s.drop_last() =~= decimal(n / 10));
        assert forall|i: int| 0 <= i < s.len() implies '0' <= #[trigger] s[i] <= '9' by {
            if i < s.len() - 1 {
                assert(s[i] == decimal(n / 10)[i]);
            }
        }
    }
}

impl TxResponse {
    /// The response of an instantiation that created an instance at `address`.
    pub fn instantiated(address: String) -> (r: Self)
        ensures
            r.events@.len() == 1,
            r.events@[0].ty@ == address_key().0,
            r.events@[0].attributes@.len() == 1,
            r.events@[0].attributes@[0].key@ == address_key().1,
            r.events@[0].attributes@[0].value@ == address@,
            event_attr(r.events@, address_key().0, address_key().1) == Some(address@),
    {
        let attr = Attribute { key: "_contract_address".to_owned(), value: address };
        let mut attributes: Vec<Attribute> = Vec::new();
        attributes.push(attr);
        let ev = Event { ty: "instantiate".to_owned(), attributes };
        let mut events: Vec<Event> = Vec::new();
        events.push(ev);
        let r = TxResponse { events };
        assert(r.events@[0].attributes@.drop_first().len() == 0);
        assert(r.events@.drop_first().len() == 0);
        r
    }

    /// The response of an upload that stored code under `code_id`.
    pub fn stored(code_id: u64) -> (r: Self)
        ensures
            r.events@.len() == 1,
            r.events@[0].ty@ == code_id_key().0,
            r.events@[0].attributes@.len() == 1,
            r.events@[0].attributes@[0].key@ == code_id_key().1,
            r.events@[0].attributes@[0].value@ == decimal(code_id as nat),
            event_attr(r.events@, code_id_key().0, code_id_key().1) == Some(decimal(code_id as nat)),
            parse_u64(decimal(code_id as nat)) == Some(code_id),
    {
        let attr = Attribute { key: "code_id".to_owned(), value: decimal_string(code_id) };
        let mut attributes: Vec<Attribute> = Vec::new();
        attributes.push(attr);
        let ev = Event { ty: "store_code".to_owned(), attributes };
        let mut events: Vec<Event> = Vec::new();
        events.push(ev);
        let r = TxResponse { events };
        proof {
            lemma_decimal_parses(code_id as nat);
        }
        r
    }

    /// The address of the instance that this response reports.
    pub fn instantiated_contract_address(&self) -> (r: Result<String, BootError>)
        ensures
            match event_attr(self.events@, address_key().0, address_key().1) {
                Some(a) => r is Ok && r->Ok_0@ == a,
                None => r is Err && r->Err_0 is Backend,
            },
    {
        match find_event_attr(&self.events, "instantiate", "_contract_address") {
            Some(a) => Ok(a),
            None => Err(BootError::Backend("the response holds no contract address".to_owned())),
        }
    }

    /// The code identifier that this response reports.
    pub fn uploaded_code_id(&self) -> (r: Result<u64, BootError>)
        ensures
            match event_attr(self.events@, code_id_key().0, code_id_key().1) {
                Some(v) => match parse_u64(v) {
                    Some(c) => r == Ok::<u64, BootError>(c),
                    None => r is Err && r->Err_0 is Backend,
                },
                None => r is Err && r->Err_0 is Backend,
            },
    {
        match find_event_attr(&self.events, "store_code", "code_id") {
            Some(v) => match parse_code_id(v.as_str()) {
                Some(c) => Ok(c),
                None => Err(BootError::Backend("the code id in the response is not a number".to_owned())),
            },
            None => Err(BootError::Backend("the response holds no code id".to_owned())),
        }
    }
}

} // verus!
