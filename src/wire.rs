use vstd::prelude::*;
use vstd::string::StringExecFns;
use crate::model::{Amount, Payment};

verus! {

pub open spec fn hex_digit(d: nat) -> char {
    seq!['0', '1', '2', '3', '4', '5', '6', '7', '8', '9', 'a', 'b', 'c', 'd', 'e', 'f'][d as int]
}

/// How one character is written inside a JSON string literal: quote and
/// backslash are escaped, the control characters backspace, tab, line feed,
/// form feed and carriage return take their short escapes, the other control
/// characters `\u00xx` with lower-case hex digits, and all else is kept.
pub open spec fn escaped_char(c: char) -> Seq<char> {
    if c == '"' {
        seq!['\\', '"']
    } else if c == '\\' {
        seq!['\\', '\\']
    } else if c == '\x08' {
        seq!['\\', 'b']
    } else if c == '\t' {
        seq!['\\', 't']
    } else if c == '\n' {
        seq!['\\', 'n']
    } else if c == '\x0c' {
        seq!['\\', 'f']
    } else if c == '\r' {
        seq!['\\', 'r']
    } else if (c as u32) < 0x20 {
        seq!['\\', 'u', '0', '0', hex_digit((c as u32 / 16) as nat), hex_digit((c as u32 % 16) as nat)]
    } else {
        seq![c]
    }
}

/// The characters of `s`, each escaped.
pub open spec fn escaped(s: Seq<char>) -> Seq<char>
    decreases s.len(),
{
    if s.len() == 0 {
        seq![]
    } else {
        escaped(s.drop_last()) + escaped_char(s.last())
    }
}

/// The JSON string literal that encodes `s`.
pub open spec fn json_string(s: Seq<char>) -> Seq<char> {
    seq!['"'] + escaped(s) + seq!['"']
}

/// Relies on `serde_json::to_string` for a string slice: the text between
/// double quotes, escaped character by character as `escaped_char` says; it
/// cannot fail on a `str`.
#[verifier::external_body]
fn quote(s: &str) -> (r: String)
    ensures
        r@ == json_string(s@),
{
    match serde_json::to_string(s) {
        Ok(t) => t,
        Err(_) => String::new(),
    }
}

/// Relies on `rust_decimal::Decimal::from_i128_with_scale` (which panics only
/// outside the bounds of `Amount::wf`) and on its `Display` text, written as
/// `decimal_text` says.
#[verifier::external_body]
fn amount_text(a: &Amount) -> (r: String)
    requires
        a.wf(),
    ensures
        r@ == decimal_text(a.mantissa as int, a.scale as int),
{
    rust_decimal::Decimal::from_i128_with_scale(a.mantissa, a.scale).to_string()
}

pub open spec fn digit(d: nat) -> char {
    seq!['0', '1', '2', '3', '4', '5', '6', '7', '8', '9'][d as int]
}

/// Decimal digits of a natural number, most significant first.
pub open spec fn decimal_digits(n: nat) -> Seq<char>
    decreases n,
{
    if n < 10 {
        seq![digit(n)]
    } else {
        decimal_digits(n / 10).push(digit(n % 10))
    }
}

/// `n` zeros.
pub open spec fn zeros(n: nat) -> Seq<char> {
    Seq::new(n, |i: int| '0')
}

/// Digits of the magnitude of `mantissa`, left-padded with zeros to at least
/// `scale` digits; zero alone has no digits before padding.
pub open spec fn padded_digits(mantissa: int, scale: nat) -> Seq<char> {
    let d = if mantissa == 0 {
        Seq::<char>::empty()
    } else if mantissa < 0 {
        decimal_digits((-mantissa) as nat)
    } else {
        decimal_digits(mantissa as nat)
    };
    if d.len() < scale {
        zeros((scale - d.len()) as nat) + d
    } else {
        d
    }
}

/// The decimal text of `mantissa / 10^scale`: a `-` for a negative mantissa,
/// the whole part (`0` when empty), and when the scale is positive a point
/// followed by exactly `scale` fractional digits.
pub open spec fn decimal_text(mantissa: int, scale: int) -> Seq<char> {
    let p = padded_digits(mantissa, scale as nat);
    let whole = p.len() - scale;
    let body = if scale <= 0 {
        if p.len() == 0 {
            seq!['0']
        } else {
            p
        }
    } else {
        (if whole == 0 {
            seq!['0']
        } else {
            p.subrange(0, whole)
        }) + seq!['.'] + p.subrange(whole, p.len() as int)
    };
    if mantissa < 0 {
        seq!['-'] + body
    } else {
        body
    }
}

fn digit_text(d: u8) -> (r: &'static str)
    requires
        d < 10,
    ensures
        r@ == seq![digit(d as nat)],
{
    proof {
        reveal_strlit("0");
        reveal_strlit("1");
        reveal_strlit("2");
        reveal_strlit("3");
        reveal_strlit("4");
        reveal_strlit("5");
        reveal_strlit("6");
        reveal_strlit("7");
        reveal_strlit("8");
        reveal_strlit("9");
    }
    let r = if d == 0 {
        "0"
    } else if d == 1 {
        "1"
    } else if d == 2 {
        "2"
    } else if d == 3 {
        "3"
    } else if d == 4 {
        "4"
    } else if d == 5 {
        "5"
    } else if d == 6 {
        "6"
    } else if d == 7 {
        "7"
    } else if d == 8 {
        "8"
    } else {
        "9"
    };
    assert(r@ =~= seq![digit(d as nat)]);
    r
}

/// Decimal text of a byte-sized counter.
pub fn u8_text(n: u8) -> (r: String)
    ensures
        r@ == decimal_digits(n as nat),
{
    let mut r = String::new();
    if n >= 100 {
        r.append(digit_text(n / 100));
    }
    if n >= 10 {
        r.append(digit_text((n / 10) % 10));
    }
    r.append(digit_text(n % 10));
    proof {
        let k = n as nat;
        if k >= 100 {
            let h = k / 100;
            let t = k / 10;
            assert(t / 10 == h && h < 10 && t >= 10) by (nonlinear_arith)
                requires
                    h == k / 100,
                    t == k / 10,
                    100 <= k < 256,
            ;
            assert(decimal_digits(h) == seq![digit(h)]);
            assert(decimal_digits(t) == decimal_digits(h).push(digit(t % 10)));
            assert(decimal_digits(k) == decimal_digits(t).push(digit(k % 10)));
        } else if k >= 10 {
            let t = k / 10;
            assert(t < 10 && t % 10 == t);
            assert(decimal_digits(t) == seq![digit(t)]);
            assert(decimal_digits(k) == decimal_digits(t).push(digit(k % 10)));
        }
        assert(r@ =~= decimal_digits(k));
    }
    r
}

/// A queued payment together with its re-delivery counter.
#[derive(Clone, Debug)]
pub struct QueueEnvelope {
    /// The serialized payment.
    pub message: String,
    pub retry_count: u8,
}

/// Wire form of an envelope: `{"message":<string>,"retry_count":<n>}`.
pub open spec fn envelope_json(message: Seq<char>, retry_count: nat) -> Seq<char> {
    "{\"message\":"@ + json_string(message) + ",\"retry_count\":"@ + decimal_digits(retry_count)
        + "}"@
}

impl QueueEnvelope {
    /// The JSON text under which the envelope is stored in a queue.
    pub fn encode(&self) -> (r: String)
        ensures
            r@ == envelope_json(self.message@, self.retry_count as nat),
    {
        let mut r = String::from_str("{\"message\":");
        r.append(quote(self.message.as_str()).as_str());
        r.append(",\"retry_count\":");
        r.append(u8_text(self.retry_count).as_str());
        r.append("}");
        r
    }
}

/// Wire form of a payment:
/// `{"correlationId":<string>,"amount":<decimal string>,"requestedAt":<string>}`.
pub open spec fn payment_json(p: Payment) -> Seq<char> {
    "{\"correlationId\":"@ + json_string(p.correlation_id@) + ",\"amount\":"@ + json_string(
        decimal_text(p.amount.mantissa as int, p.amount.scale as int),
    ) + ",\"requestedAt\":"@ + json_string(p.requested_at@) + "}"@
}

/// The JSON text of a payment, as carried in a queue envelope.
pub fn encode_payment(p: &Payment) -> (r: String)
    requires
        p.amount.wf(),
    ensures
        r@ == payment_json(*p),
{
    let mut r = String::from_str("{\"correlationId\":");
    r.append(quote(p.correlation_id.as_str()).as_str());
    r.append(",\"amount\":");
    let amount = amount_text(&p.amount);
    r.append(quote(amount.as_str()).as_str());
    r.append(",\"requestedAt\":");
    r.append(quote(p.requested_at.as_str()).as_str());
    r.append("}");
    r
}

} // verus!
