//! Acquisition of the attributes describing the next block to build: either
//! derived from the latest committed header (replay), or taken from the first
//! payload-attributes event of a beacon-node subscription, retrying the
//! subscribe step every five seconds until it succeeds (live).

use vstd::prelude::*;

use crate::types::{Address, Header, B256};

verus! {

/// Seconds waited between failed subscribe attempts.
pub const RETRY_DELAY_SECS: u64 = 5;

/// The decimal digits of `n`, most significant first, as ASCII bytes.
pub open spec fn dec_bytes(n: nat) -> Seq<u8>
    decreases n,
{
    if n < 10 {
        seq![(48 + n) as u8]
    } else {
        dec_bytes(n / 10).push((48 + (n % 10)) as u8)
    }
}

/// The characters an ASCII byte sequence spells.
pub open spec fn ascii_chars(s: Seq<u8>) -> Seq<char> {
    s.map_values(|b: u8| b as char)
}

/// Relies on `String::from_utf8`: bytes below 128 are valid UTF-8 and decode
/// to the string of exactly those characters.
#[verifier::external_body]
fn ascii_string(bytes: Vec<u8>) -> (r: String)
    requires
        forall|i: int| 0 <= i < bytes@.len() ==> bytes@[i] < 128,
    ensures
        r@ == ascii_chars(bytes@),
{
    match String::from_utf8(bytes) {
        Ok(s) => s,
        Err(_) => String::new(),
    }
}

/// Every digit byte is an ASCII decimal digit.
proof fn lemma_dec_bytes_ascii(n: nat)
    ensures
        forall|i: int| 0 <= i < dec_bytes(n).len() ==> 48 <= #[trigger] dec_bytes(n)[i] <= 57,
    decreases n,
{
    if n < 10 {
        assert(dec_bytes(n)[0] == (48 + n) as u8);
    } else {
        lemma_dec_bytes_ascii(n / 10);
        vstd::arithmetic::div_mod::lemma_mod_bound(n as int, 10);
        let prev = dec_bytes(n / 10);
        assert(dec_bytes(n) == prev.push((48 + (n % 10)) as u8));
        assert forall|i: int| 0 <= i < dec_bytes(n).len() implies 48 <= #[trigger] dec_bytes(n)[i]
            <= 57 by {
            if i < prev.len() {
                assert(dec_bytes(n)[i] == prev[i]);
            } else {
                assert(dec_bytes(n)[i] == (48 + (n % 10)) as u8);
            }
        };
    }
}

/// Write the decimal digits of `n` after the bytes already in `out`.
fn push_decimal(out: &mut Vec<u8>, n: u16)
    ensures
        final(out)@ == old(out)@ + dec_bytes(n as nat),
    decreases n,
{
    if n >= 10 {
        proof {
            vstd::arithmetic::div_mod::lemma_div_decreases(n as int, 10);
        }
        push_decimal(out, n / 10);
        out.push(48 + ((n % 10) as u8));
        proof {
            assert(out@ =~= old(out)@ + dec_bytes(n as nat));
        }
    } else {
        out.push(48 + (n as u8));
        proof {
            assert(out@ =~= old(out)@ + dec_bytes(n as nat));
        }
    }
}

/// The decimal digits of `n` as ASCII bytes.
fn u16_decimal(n: u16) -> (r: Vec<u8>)
    ensures
        r@ == dec_bytes(n as nat),
{
    let mut out: Vec<u8> = Vec::new();
    push_decimal(&mut out, n);
    proof {
        assert(Seq::<u8>::empty() + dec_bytes(n as nat) =~= dec_bytes(n as nat));
    }
    out
}

/// Where the beacon node's HTTP server listens.
#[derive(Clone, Debug)]
pub struct BeaconEventsConfig {
    /// Beacon node address, in textual form.
    pub cl_addr: String,
    /// Beacon node HTTP port.
    pub cl_port: u16,
}

impl BeaconEventsConfig {
    /// The characters of the node's base URL.
    pub open spec fn spec_http_base_url(self) -> Seq<char> {
        "http://"@ + self.cl_addr@ + ":"@ + ascii_chars(dec_bytes(self.cl_port as nat))
    }

    /// A configuration pointing at the local beacon node's default endpoint.
    pub fn new() -> (r: BeaconEventsConfig)
        ensures
            r.cl_addr@ == "127.0.0.1"@,
            r.cl_port == 5052,
    {
        BeaconEventsConfig { cl_addr: String::from_str("127.0.0.1"), cl_port: 5052 }
    }

    /// The HTTP URL of the beacon node.
    pub fn http_base_url(&self) -> (r: String)
        ensures
            r@ == self.spec_http_base_url(),
    {
        let mut s = String::from_str("http://");
        s.append(self.cl_addr.as_str());
        s.append(":");
        let digits = u16_decimal(self.cl_port);
        proof {
            lemma_dec_bytes_ascii(self.cl_port as nat);
        }
        let port = ascii_string(digits);
        s.append(port.as_str());
        proof {
            assert(s@ =~= self.spec_http_base_url());
        }
        s
    }

    /// The URL of the node's events endpoint.
    pub fn events_url(&self) -> (r: String)
        ensures
            r@ == self.spec_http_base_url() + "/eth/v1/events"@,
    {
        let mut s = self.http_base_url();
        s.append("/eth/v1/events");
        s
    }

    /// The events URL filtered to the payload-attributes topic, as handed to
    /// the subscribe call.
    pub fn payload_attributes_url(&self) -> (r: String)
        ensures
            r@ == self.spec_http_base_url() + "/eth/v1/events"@ + "?topics=payload_attributes"@,
    {
        let mut s = self.events_url();
        s.append("?topics=payload_attributes");
        proof {
            assert(s@ =~= self.spec_http_base_url() + "/eth/v1/events"@
                + "?topics=payload_attributes"@);
        }
        s
    }
}

/// A validator withdrawal listed in a payload-attributes event.
#[derive(Clone, Copy, Debug, PartialEq, Eq)]
pub struct Withdrawal {
    /// Monotonic index of the withdrawal.
    pub index: u64,
    /// Index of the withdrawing validator.
    pub validator_index: u64,
    /// Address credited with the withdrawn amount.
    pub address: Address,
    /// Amount withdrawn, in gwei.
    pub amount: u64,
}

/// The parameters describing the next block to build; immutable once
/// produced.
#[derive(Clone, Debug)]
pub struct BlockAttributes {
    /// Timestamp of the block being built.
    pub timestamp: u64,
    /// Coinbase suggested by the consensus layer.
    pub suggested_fee_recipient: Address,
    /// Randomness seed for the block being built.
    pub prev_randao: B256,
    /// Root of the parent beacon block, when the fork provides one.
    pub parent_beacon_block_root: Option<B256>,
    /// Withdrawals to process, when the fork provides them.
    pub withdrawals: Option<Vec<Withdrawal>>,
}

/// What to do after one subscribe attempt.
#[derive(Clone, Copy, Debug, PartialEq, Eq, Structural)]
pub enum RetryDecision {
    /// The subscription is up: consume its first event.
    Proceed,
    /// Subscribing failed: wait this many seconds, then try again.
    RetryAfterSecs(u64),
}

/// Decide how the live acquisition reacts to one subscribe attempt: proceed
/// on success, otherwise retry after a fixed five-second delay, without any
/// retry limit.
pub fn subscribe_retry_decision(subscribed: bool) -> (r: RetryDecision)
    ensures
        subscribed ==> r == RetryDecision::Proceed,
        !subscribed ==> r == RetryDecision::RetryAfterSecs(RETRY_DELAY_SECS as u64),
{
    if subscribed {
        RetryDecision::Proceed
    } else {
        RetryDecision::RetryAfterSecs(RETRY_DELAY_SECS)
    }
}

/// Replay the live acquisition against a recorded run of attempts, each
/// `Some` holding the attributes of the first event of a successful
/// subscription: the first success is delivered, and every earlier attempt
/// counts as one delayed retry.
pub fn acquire_from_attempts(attempts: Vec<Option<BlockAttributes>>) -> (r: Option<
    (BlockAttributes, usize),
>)
    ensures
        match r {
            Some(pair) => {
                &&& pair.1 < attempts@.len()
                &&& attempts@[pair.1 as int] matches Some(a) && a == pair.0
                &&& forall|j: int| 0 <= j < pair.1 ==> attempts@[j] is None
            },
            None => forall|j: int| 0 <= j < attempts@.len() ==> attempts@[j] is None,
        },
{
    let mut rest = attempts;
    let ghost orig = rest@;
    let mut i: usize = 0;
    let _n: usize = rest.len();
    while rest.len() > 0
        invariant
            orig == attempts@,
            orig.len() <= usize::MAX,
            i + rest@.len() == orig.len(),
            rest@ == orig.subrange(i as int, orig.len() as int),
            forall|j: int| 0 <= j < i ==> orig[j] is None,
        decreases rest@.len(),
    {
        let head = rest.remove(0);
        if let Some(a) = head {
            return Some((a, i));
        }
        i = i + 1;
        proof {
            assert(rest@ =~= orig.subrange(i as int, orig.len() as int));
        }
    }
    None
}

/// Derive the attributes for replaying the latest block: every field is the
/// header's own recorded value.
pub fn attributes_from_header(header: &Header) -> (r: BlockAttributes)
    ensures
        r.timestamp == header.timestamp,
        r.suggested_fee_recipient == header.beneficiary,
        r.prev_randao == header.mix_hash,
        r.parent_beacon_block_root is None,
        r.withdrawals is None,
{
    BlockAttributes {
        timestamp: header.timestamp,
        suggested_fee_recipient: header.beneficiary,
        prev_randao: header.mix_hash,
        parent_beacon_block_root: None,
        withdrawals: None,
    }
}

} // verus!
