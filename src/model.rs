use vstd::prelude::*;
use vstd::string::StringExecFns;

verus! {

/// The downstream processor that actually handled a payment.
#[derive(Clone, Copy, Debug, PartialEq, Eq, Structural)]
pub enum PaymentProcessorName {
    Default,
    Fallback,
}

/// Textual identifier of a processor, as carried by the `x-payment-processor`
/// header and stored with each recorded payment.
pub open spec fn processor_label(p: PaymentProcessorName) -> Seq<char> {
    match p {
        PaymentProcessorName::Default => seq!['d', 'e', 'f', 'a', 'u', 'l', 't'],
        PaymentProcessorName::Fallback => seq!['f', 'a', 'l', 'l', 'b', 'a', 'c', 'k'],
    }
}

/// Reading of a processor identifier: `fallback` names the fallback, anything
/// else (including `default`) names the default processor.
pub open spec fn processor_from_label(s: Seq<char>) -> PaymentProcessorName {
    if s == processor_label(PaymentProcessorName::Fallback) {
        PaymentProcessorName::Fallback
    } else {
        PaymentProcessorName::Default
    }
}

impl PaymentProcessorName {
    /// The identifier of this processor (`default` or `fallback`).
    pub fn to_string(&self) -> (r: String)
        ensures
            r@ == processor_label(*self),
    {
        match self {
            PaymentProcessorName::Default => {
                let r = String::from_str("default");
                proof {
                    reveal_strlit("default");
                }
                assert(r@ =~= processor_label(*self));
                r
            },
            PaymentProcessorName::Fallback => {
                let r = String::from_str("fallback");
                proof {
                    reveal_strlit("fallback");
                }
                assert(r@ =~= processor_label(*self));
                r
            },
        }
    }

    /// Maps a processor identifier to the processor it names; unknown
    /// identifiers are attributed to the default processor.
    pub fn from_label(s: &String) -> (r: PaymentProcessorName)
        ensures
            r == processor_from_label(s@),
    {
        let fallback = PaymentProcessorName::Fallback.to_string();
        if *s == fallback {
            PaymentProcessorName::Fallback
        } else {
            PaymentProcessorName::Default
        }
    }
}

/// Largest magnitude of a decimal mantissa (96 bits).
pub const MAX_MANTISSA: i128 = 79228162514264337593543950335;

/// Largest number of fractional digits of a decimal.
pub const MAX_SCALE: u32 = 28;

/// An exact decimal amount: `mantissa / 10^scale`.
#[derive(Clone, Copy, Debug, PartialEq, Eq, Structural)]
pub struct Amount {
    pub mantissa: i128,
    pub scale: u32,
}

impl Amount {
    pub open spec fn wf(&self) -> bool {
        &&& self.scale <= MAX_SCALE
        &&& -MAX_MANTISSA <= self.mantissa <= MAX_MANTISSA
    }

    /// The amount zero.
    pub fn zero() -> (r: Amount)
        ensures
            r == (Amount { mantissa: 0, scale: 0 }),
            r.wf(),
    {
        Amount { mantissa: 0, scale: 0 }
    }
}

/// A payment request as it travels through dispatch and retry.
#[derive(Clone, Debug)]
pub struct Payment {
    pub correlation_id: String,
    pub amount: Amount,
    /// RFC 3339 time of the most recent dispatch attempt; empty until stamped.
    pub requested_at: String,
}

/// Totals of the payments handled by one processor.
#[derive(Clone, Copy, Debug, PartialEq, Eq, Structural)]
pub struct PaymentMetric {
    pub total_requests: u64,
    pub total_amount: Amount,
}

/// Totals partitioned by processor.
#[derive(Clone, Copy, Debug, PartialEq, Eq, Structural)]
pub struct PaymentSummary {
    pub default: PaymentMetric,
    pub fallback: PaymentMetric,
}

/// Optional time window of a summary query, as RFC 3339 text.
#[derive(Clone, Debug)]
pub struct SummaryParams {
    pub from: Option<String>,
    pub to: Option<String>,
}

} // verus!
