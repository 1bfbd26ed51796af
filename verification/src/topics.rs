//! The topic grammar of the remote channel.
//!
//! Inbound requests arrive on `v1/devices/me/rpc/request/<id>` where `<id>`
//! is a decimal request identifier that fits in 32 unsigned bits, written as
//! one or more digits after an optional leading plus sign. The acknowledgment
//! goes back on `v1/devices/me/rpc/response/<id>`, and state snapshots are
//! published on `v1/devices/me/attributes`.

use vstd::prelude::*;

verus! {

/// A topic the controller subscribes to, classified.
#[derive(Clone, Copy, Debug, PartialEq, Eq, Structural)]
pub enum SubscribedTopics {
    /// An inbound request, carrying its request identifier.
    Request(u32),
}

/// A topic the controller publishes on.
#[derive(Clone, Copy, Debug, PartialEq, Eq, Structural)]
pub enum PublishedTopics {
    /// The state-snapshot channel read by the remote supervisor.
    Attributes,
}

/// The fixed prefix of every inbound request topic.
pub open spec fn req_prefix() -> Seq<char> {
    "v1/devices/me/rpc/request/"@
}

/// The fixed prefix of every acknowledgment topic.
pub open spec fn resp_prefix() -> Seq<char> {
    "v1/devices/me/rpc/response/"@
}

/// A decimal digit.
pub open spec fn is_digit(c: char) -> bool {
    48 <= c as int && c as int <= 57
}

/// Every character of the sequence is a decimal digit.
pub open spec fn all_digits(s: Seq<char>) -> bool {
    forall|i: int| 0 <= i < s.len() ==> is_digit(#[trigger] s[i])
}

/// The value of a digit sequence read as a decimal numeral.
pub open spec fn dec_value(s: Seq<char>) -> int
    decreases s.len(),
{
    if s.len() == 0 {
        0
    } else {
        dec_value(s.drop_last()) * 10 + (s.last() as int - 48)
    }
}

/// The identifier part of a request topic: what follows the prefix, with a
/// single leading plus sign stripped.
pub open spec fn spec_digits_part(t: Seq<char>) -> Seq<char> {
    let rest = t.skip(req_prefix().len() as int);
    if rest.len() > 0 && rest[0] == '+' {
        rest.drop_first()
    } else {
        rest
    }
}

/// The request identifier a topic parses to: `Some` exactly when the topic
/// starts with the request prefix and what follows is an optional plus sign
/// and one or more digits whose value fits in a `u32`.
pub open spec fn spec_parse_request_topic(t: Seq<char>) -> Option<u32> {
    if t.len() >= req_prefix().len() && t.subrange(0, req_prefix().len() as int) == req_prefix() {
        let d = spec_digits_part(t);
        if d.len() > 0 && all_digits(d) && dec_value(d) <= u32::MAX {
            Option::Some(dec_value(d) as u32)
        } else {
            Option::None
        }
    } else {
        Option::None
    }
}

/// The character of a single decimal digit.
pub open spec fn digit_char(d: int) -> char {
    ((d + 48) as u8) as char
}

/// The decimal numeral of `n`, most significant digit first, no leading
/// zeros except for `n == 0` itself.
pub open spec fn dec_digits(n: nat) -> Seq<char>
    decreases n,
{
    if n < 10 {
        seq![digit_char(n as int)]
    } else {
        dec_digits(n / 10) + seq![digit_char((n % 10) as int)]
    }
}

/// The acknowledgment topic of a request.
pub open spec fn spec_response_topic(t: SubscribedTopics) -> Seq<char> {
    match t {
        SubscribedTopics::Request(id) => resp_prefix() + dec_digits(id as nat),
    }
}

/// A digit sequence never has a negative decimal value.
proof fn lemma_dec_value_nonneg(s: Seq<char>)
    requires
        all_digits(s),
    ensures
        dec_value(s) >= 0,
    decreases s.len(),
{
    if s.len() > 0 {
        assert(all_digits(s.drop_last()));
        lemma_dec_value_nonneg(s.drop_last());
    }
}

/// Extending a digit numeral to the right never shrinks its value: the value
/// of any prefix bounds the value of the whole from below.
proof fn lemma_dec_value_prefix_le(s: Seq<char>, i: int)
    requires
        all_digits(s),
        0 <= i <= s.len(),
    ensures
        dec_value(s.subrange(0, i)) <= dec_value(s),
    decreases s.len() - i,
{
    if i < s.len() {
        lemma_dec_value_prefix_le(s, i + 1);
        let p = s.subrange(0, i + 1);
        assert(p.drop_last() =~= s.subrange(0, i));
        assert(all_digits(s.subrange(0, i)));
        lemma_dec_value_nonneg(s.subrange(0, i));
        assert(dec_value(p) == dec_value(s.subrange(0, i)) * 10 + (p.last() as int - 48));
        assert(dec_value(s.subrange(0, i)) <= dec_value(p));
    } else {
        assert(s.subrange(0, i) =~= s);
    }
}

impl SubscribedTopics {
    /// The wildcard pattern the transport subscribes to so that every
    /// request topic is delivered.
    pub fn subscription_pattern() -> (r: &'static str)
        ensures
            r@ == req_prefix() + "+"@,
    {
        proof {
            reveal_strlit("v1/devices/me/rpc/request/");
            reveal_strlit("v1/devices/me/rpc/request/+");
            reveal_strlit("+");
            assert("v1/devices/me/rpc/request/+"@ =~= req_prefix() + "+"@);
        }
        "v1/devices/me/rpc/request/+"
    }

    /// Classify an inbound topic, extracting the request identifier; fails
    /// on any topic that is not a well-formed request topic.
    #[verifier::loop_isolation(false)]
    pub fn try_from(topic: &str) -> (r: Result<SubscribedTopics, ()>)
        ensures
            r == match spec_parse_request_topic(topic@) {
                Option::Some(id) => Result::<SubscribedTopics, ()>::Ok(
                    SubscribedTopics::Request(id),
                ),
                Option::None => Result::<SubscribedTopics, ()>::Err(()),
            },
    {
        proof {
            reveal_strlit("v1/devices/me/rpc/request/");
        }
        let prefix = "v1/devices/me/rpc/request/";
        let plen = prefix.unicode_len();
        let n = topic.unicode_len();
        if n <= plen {
            return Result::Err(());
        }
        let mut i: usize = 0;
        while i < plen
            invariant
                i <= plen,
                forall|j: int| 0 <= j < i ==> topic@[j] == req_prefix()[j],
            decreases plen - i,
        {
            if topic.get_char(i) != prefix.get_char(i) {
                proof {
                    assert(topic@.subrange(0, plen as int)[i as int] != req_prefix()[i as int]);
                }
                return Result::Err(());
            }
            i += 1;
        }
        assert(topic@.subrange(0, plen as int) =~= req_prefix());
        let mut start: usize = plen;
        if topic.get_char(start) == '+' {
            start += 1;
            if start == n {
                proof {
                    assert(spec_digits_part(topic@) =~= Seq::<char>::empty());
                }
                return Result::Err(());
            }
        }
        let ghost d: Seq<char> = topic@.subrange(start as int, n as int);
        proof {
            assert(topic@.skip(plen as int) =~= topic@.subrange(plen as int, n as int));
            if start == plen + 1 {
                assert(topic@.skip(plen as int).drop_first() =~= d);
            }
            assert(d =~= spec_digits_part(topic@));
        }
        let mut k: usize = start;
        let mut acc: u32 = 0;
        while k < n
            invariant
                start <= k <= n,
                all_digits(topic@.subrange(start as int, k as int)),
                acc == dec_value(topic@.subrange(start as int, k as int)),
            decreases n - k,
        {
            let c = topic.get_char(k);
            let cv: u32 = c as u32;
            if cv < 48 || cv > 57 {
                proof {
                    assert(!is_digit(d[k - start]));
                }
                return Result::Err(());
            }
            let dv: u32 = cv - 48;
            let ghost p = topic@.subrange(start as int, k as int);
            let ghost q = topic@.subrange(start as int, k + 1 as int);
            proof {
                assert(q.drop_last() =~= p);
                assert(q.last() == topic@[k as int]);
                assert(dec_value(q) == dec_value(p) * 10 + (c as int - 48));
                assert(all_digits(q));
            }
            if acc > 429496729 || (acc == 429496729 && dv > 5) {
                proof {
                    assert(dec_value(q) > u32::MAX);
                    if all_digits(d) {
                        lemma_dec_value_prefix_le(d, k + 1 - start as int);
                        assert(d.subrange(0, k + 1 - start as int) =~= q);
                        assert(dec_value(d) > u32::MAX);
                    }
                }
                return Result::Err(());
            }
            acc = acc * 10 + dv;
            k += 1;
        }
        proof {
            assert(topic@.subrange(start as int, n as int) =~= d);
            assert(all_digits(d));
            assert(dec_value(d) == acc);
        }
        Result::Ok(SubscribedTopics::Request(acc))
    }

    /// The acknowledgment topic that answers this request.
    pub fn response_topic(&self) -> (r: String)
        ensures
            r@ == spec_response_topic(*self),
    {
        proof {
            reveal_strlit("v1/devices/me/rpc/response/");
        }
        match self {
            SubscribedTopics::Request(id) => {
                let mut s = String::from_str("v1/devices/me/rpc/response/");
                let digits = u32_to_dec(*id);
                s.append(digits.as_str());
                s
            },
        }
    }
}

impl PublishedTopics {
    /// The topic this channel publishes on.
    pub fn topic_str(&self) -> (r: &'static str)
        ensures
            r@ == "v1/devices/me/attributes"@,
    {
        match self {
            PublishedTopics::Attributes => "v1/devices/me/attributes",
        }
    }

    /// The same topic as an owned string.
    pub fn topic_string(&self) -> (r: String)
        ensures
            r@ == "v1/devices/me/attributes"@,
    {
        String::from_str(self.topic_str())
    }
}

/// The one-character string of a single decimal digit.
fn digit_str(d: u32) -> (r: &'static str)
    requires
        d < 10,
    ensures
        r@ == seq![digit_char(d as int)],
{
    proof {
        reveal_strlit("0");
        reveal_strlit("1");
        reveal_strlit("2");
        reveal_strlit("3");
        reveal_strlit("4");
        reveal_strlit("5");
        reveal_strlit("6");
        reveal_strlit("7");
        reveal_strlit("8");
        reveal_strlit("9");
        assert("0"@ =~= seq![digit_char(0)]);
        assert("1"@ =~= seq![digit_char(1)]);
        assert("2"@ =~= seq![digit_char(2)]);
        assert("3"@ =~= seq![digit_char(3)]);
        assert("4"@ =~= seq![digit_char(4)]);
        assert("5"@ =~= seq![digit_char(5)]);
        assert("6"@ =~= seq![digit_char(6)]);
        assert("7"@ =~= seq![digit_char(7)]);
        assert("8"@ =~= seq![digit_char(8)]);
        assert("9"@ =~= seq![digit_char(9)]);
    }
    match d {
        0 => "0",
        1 => "1",
        2 => "2",
        3 => "3",
        4 => "4",
        5 => "5",
        6 => "6",
        7 => "7",
        8 => "8",
        _ => "9",
    }
}

/// Render an identifier as its decimal numeral.
fn u32_to_dec(n: u32) -> (r: String)
    ensures
        r@ == dec_digits(n as nat),
    decreases n,
{
    if n < 10 {
        String::from_str(digit_str(n))
    } else {
        let q = n / 10;
        let rem = n % 10;
        let mut s = u32_to_dec(q);
        s.append(digit_str(rem));
        s
    }
}

} // verus!
