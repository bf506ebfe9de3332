//! Hidden-service orchestration: creating one service or a batch of them,
//! with keys resolved deterministically from per-entry seeds.
//!
//! The engine's reply to each creation request is passed in as a plain
//! value (the published onion address, or `None` for a failed attempt); the
//! requests the orchestrator would send, key material included, are
//! returned so the embedding can replay them against the engine.

use vstd::prelude::*;

use crate::keys::expand_seed_to_secret;
use crate::keys::expanded_secret_of;
use crate::keys::hex_decode;
use crate::keys::hex_decoded;
use crate::keys::is_hex_string;
use crate::registry::ServiceRegistry;

verus! {

/// One entry of a batch request.  An absent `generate` defaults to true;
/// only `generate == Some(false)` with a present `seed_hex` asks for a
/// deterministic key, everything else lets the engine pick a random one.
#[derive(Clone, Debug)]
pub struct HiddenServiceKeySpec {
    pub onion: Option<String>,
    pub seed_hex: Option<String>,
    pub pub_hex: Option<String>,
    pub generate: Option<bool>,
}

/// The outcome of one creation attempt.
#[derive(Clone, Debug)]
pub struct HiddenServiceResponse {
    pub is_success: bool,
    pub onion_address: String,
    pub control: String,
}

/// A creation request as it would be put to the engine: the public
/// hidden-service port, the local port it forwards to, and the expanded
/// secret key, `None` when the engine is to pick one at random.
#[derive(Clone, Debug)]
pub struct EngineRequest {
    pub local_port: u16,
    pub target_port: u16,
    pub secret_key: Option<Vec<u8>>,
}

/// What a whole batch produced: the addresses of the entries that
/// succeeded, in order, the control endpoint of the handle they were
/// published on, and whether anything succeeded at all.
#[derive(Clone, Debug)]
pub struct BatchResult {
    pub onion_addresses: Vec<String>,
    pub control_endpoint: String,
    pub any_success: bool,
}

/// Whether a spec asks the engine to generate a random key (the default).
pub open spec fn spec_generate(ks: HiddenServiceKeySpec) -> bool {
    match ks.generate {
        Some(g) => g,
        None => true,
    }
}

/// The key a spec resolves to: the expanded secret of its seed when the
/// seed is a valid hexadecimal string of exactly 32 bytes, `None` (meaning
/// a random key) in every other case.
pub open spec fn spec_resolved_key(ks: HiddenServiceKeySpec) -> Option<Seq<u8>> {
    if spec_generate(ks) {
        None
    } else {
        match ks.seed_hex {
            Some(sh) => if is_hex_string(sh@) && hex_decoded(sh@).len() == 32 {
                Some(expanded_secret_of(hex_decoded(sh@)))
            } else {
                None
            },
            None => None,
        }
    }
}

/// The byte sequences behind an optional key.
pub open spec fn key_view(k: Option<Vec<u8>>) -> Option<Seq<u8>> {
    match k {
        Some(v) => Some(v@),
        None => None,
    }
}

/// Resolves the key for one spec: deterministic derivation from `seed_hex`
/// when `generate` is false and the seed decodes to exactly 32 bytes,
/// otherwise `None` to let the engine choose.
pub fn resolve_key(ks: &HiddenServiceKeySpec) -> (r: Option<Vec<u8>>)
    ensures
        key_view(r) == spec_resolved_key(*ks),
{
    let generate = match ks.generate {
        Some(g) => g,
        None => true,
    };
    if generate {
        return None;
    }
    match &ks.seed_hex {
        Some(sh) => match hex_decode(sh.as_str()) {
            Some(seed) => expand_seed_to_secret(seed.as_slice()),
            None => None,
        },
        None => None,
    }
}

/// The engine reply at position `i` of a reply script; a script too short
/// to answer stands for a failed call.
pub open spec fn reply_at(replies: Seq<Option<String>>, i: int) -> Option<String> {
    if 0 <= i < replies.len() {
        replies[i]
    } else {
        None
    }
}

/// The addresses of the successful replies, in order.
pub open spec fn successes(replies: Seq<Option<String>>) -> Seq<String>
    decreases replies.len(),
{
    if replies.len() == 0 {
        Seq::empty()
    } else {
        let rest = successes(replies.drop_last());
        match replies.last() {
            Some(s) => rest.push(s),
            None => rest,
        }
    }
}

/// A reply script is all failures exactly when it holds no success.
proof fn lemma_successes_empty(replies: Seq<Option<String>>)
    ensures
        (successes(replies).len() == 0) <==> (forall|i: int|
            0 <= i < replies.len() ==> replies[i] is None),
    decreases replies.len(),
{
    if replies.len() > 0 {
        lemma_successes_empty(replies.drop_last());
        assert(forall|i: int| 0 <= i < replies.len() - 1 ==> replies.drop_last()[i]
            == replies[i]);
    }
}

/// Whether a batch over `n` specs needs its fallback attempt: every one of
/// its `n` planned creations failed.  The embedding consults this before
/// performing the planned fallback request.
pub fn batch_needs_fallback(replies: &Vec<Option<String>>, n: usize) -> (r: bool)
    ensures
        r == (successes(
            replies@.take(if n <= replies@.len() { n as int } else { replies@.len() as int }),
        ).len() == 0),
{
    let m = if n <= replies.len() {
        n
    } else {
        replies.len()
    };
    let mut i: usize = 0;
    while i < m
        invariant
            i <= m,
            m <= replies@.len(),
            m as int == (if n <= replies@.len() { n as int } else { replies@.len() as int }),
            forall|j: int| 0 <= j < i ==> replies@[j] is None,
        decreases m - i,
    {
        if replies[i].is_some() {
            proof {
                lemma_successes_empty(replies@.take(m as int));
                assert(replies@.take(m as int)[i as int] == replies@[i as int]);
            }
            return false;
        }
        i += 1;
    }
    proof {
        lemma_successes_empty(replies@.take(m as int));
        assert(forall|j: int| 0 <= j < m ==> replies@.take(m as int)[j] == replies@[j]);
    }
    true
}

/// The addresses a batch over `n` specs yields from a reply script: the
/// successes among the first `n` replies, or, if there were none, whatever
/// the one fallback attempt (reply `n`) produced.
pub open spec fn batch_addresses(replies: Seq<Option<String>>, n: int) -> Seq<String> {
    let direct = successes(replies.take(if n <= replies.len() { n } else { replies.len() as int }));
    if direct.len() > 0 {
        direct
    } else {
        match reply_at(replies, n) {
            Some(o) => Seq::<String>::empty().push(o),
            None => Seq::empty(),
        }
    }
}

impl ServiceRegistry {
    /// Creates one hidden service on the current handle with an explicit
    /// key choice.  `reply` is the engine's answer to the creation request
    /// `(port, target_port, secret_key)`; without a live handle the attempt
    /// fails with empty fields and the engine is never asked.
    #[allow(unused_variables)]
    pub fn create_hidden_service_with_key(
        &self,
        port: u16,
        target_port: u16,
        secret_key: Option<Vec<u8>>,
        reply: Option<String>,
    ) -> (r: HiddenServiceResponse)
        ensures
            self.current_service is None ==> !r.is_success
                && r.onion_address@ == Seq::<char>::empty()
                && r.control@ == Seq::<char>::empty(),
            self.current_service matches Some(h) ==> match reply {
                Some(onion) => r.is_success && r.onion_address == onion
                    && r.control == h.control_endpoint,
                None => !r.is_success && r.onion_address@ == Seq::<char>::empty()
                    && r.control@ == Seq::<char>::empty(),
            },
    {
        match &self.current_service {
            Some(service) => match reply {
                Some(onion) => HiddenServiceResponse {
                    is_success: true,
                    onion_address: onion,
                    control: service.control_endpoint.clone(),
                },
                None => HiddenServiceResponse {
                    is_success: false,
                    onion_address: String::new(),
                    control: String::new(),
                },
            },
            None => HiddenServiceResponse {
                is_success: false,
                onion_address: String::new(),
                control: String::new(),
            },
        }
    }

    /// Creates one hidden service with a key the engine picks at random.
    pub fn create_hidden_service(
        &self,
        port: u16,
        target_port: u16,
        reply: Option<String>,
    ) -> (r: HiddenServiceResponse)
        ensures
            self.current_service is None ==> !r.is_success
                && r.onion_address@ == Seq::<char>::empty()
                && r.control@ == Seq::<char>::empty(),
            self.current_service matches Some(h) ==> match reply {
                Some(onion) => r.is_success && r.onion_address == onion
                    && r.control == h.control_endpoint,
                None => !r.is_success && r.onion_address@ == Seq::<char>::empty()
                    && r.control@ == Seq::<char>::empty(),
            },
    {
        self.create_hidden_service_with_key(port, target_port, None, reply)
    }

    /// Creates a batch of hidden services, one per spec, keys resolved from
    /// the specs; an empty batch, or one in which every entry failed, falls
    /// back to a single attempt with a random key.  Failed entries are
    /// skipped, not fatal.  `replies@[i]` answers the `i`-th request made;
    /// the requests themselves are returned beside the result.
    pub fn create_batch(
        &self,
        local_port: u16,
        target_port: u16,
        specs: &Vec<HiddenServiceKeySpec>,
        replies: &Vec<Option<String>>,
    ) -> (r: (BatchResult, Vec<EngineRequest>))
        ensures
            self.current_service is None ==> !r.0.any_success
                && r.0.onion_addresses@ == Seq::<String>::empty()
                && r.0.control_endpoint@ == Seq::<char>::empty()
                && r.1@ == Seq::<EngineRequest>::empty(),
            self.current_service matches Some(h) ==> {
                let addrs = batch_addresses(replies@, specs@.len() as int);
                &&& r.0.onion_addresses@ == addrs
                &&& (r.0.any_success <==> addrs.len() > 0)
                &&& (addrs.len() > 0 ==> r.0.control_endpoint == h.control_endpoint)
                &&& (addrs.len() == 0 ==> r.0.control_endpoint@ == Seq::<char>::empty())
                &&& r.1@.len() == specs@.len() + (if successes(replies@.take(
                    if specs@.len() <= replies@.len() { specs@.len() as int } else { replies@.len() as int }
                )).len() == 0 { 1int } else { 0int })
                &&& (forall|j: int| 0 <= j < specs@.len() ==> (#[trigger] r.1@[j]).local_port == local_port
                    && r.1@[j].target_port == target_port
                    && key_view(r.1@[j].secret_key) == spec_resolved_key(specs@[j]))
                &&& (r.1@.len() == specs@.len() + 1 ==> r.1@[specs@.len() as int].local_port == local_port
                    && r.1@[specs@.len() as int].target_port == target_port
                    && r.1@[specs@.len() as int].secret_key is None)
            },
    {
        let mut requests: Vec<EngineRequest> = Vec::new();
        let has_service = match &self.current_service {
            Some(_) => true,
            None => false,
        };
        if !has_service {
            return (
                BatchResult {
                    onion_addresses: Vec::new(),
                    control_endpoint: String::new(),
                    any_success: false,
                },
                requests,
            );
        }
        let mut addresses: Vec<String> = Vec::new();
        let mut control = String::new();
        let mut i: usize = 0;
        proof {
            assert(replies@.take(0) =~= Seq::<Option<String>>::empty());
        }
        while i < specs.len()
            invariant
                self.current_service is Some,
                i <= specs@.len(),
                requests@.len() == i,
                forall|j: int| 0 <= j < i ==> (#[trigger] requests@[j]).local_port == local_port
                    && requests@[j].target_port == target_port
                    && key_view(requests@[j].secret_key) == spec_resolved_key(specs@[j]),
                addresses@ == successes(replies@.take(
                    if i <= replies@.len() { i as int } else { replies@.len() as int }
                )),
                self.current_service matches Some(h) ==> (addresses@.len() > 0 ==> control
                    == h.control_endpoint),
                addresses@.len() == 0 ==> control@ == Seq::<char>::empty(),
            decreases specs@.len() - i,
        {
            let key = resolve_key(&specs[i]);
            requests.push(EngineRequest { local_port, target_port, secret_key: key });
            if i < replies.len() {
                proof {
                    let bound = if i + 1 <= replies@.len() { i as int + 1 } else { replies@.len() as int };
                    let t = replies@.take(i as int + 1);
                    assert(bound == i + 1);
                    assert(t.drop_last() =~= replies@.take(i as int));
                    assert(t.last() == replies@[i as int]);
                }
                match &replies[i] {
                    Some(onion) => {
                        if addresses.len() == 0 {
                            match &self.current_service {
                                Some(h) => {
                                    control = h.control_endpoint.clone();
                                },
                                None => {},
                            }
                        }
                        addresses.push(onion.clone());
                    },
                    None => {},
                }
            } else {
                proof {
                    let s = replies@.take(replies@.len() as int);
                    assert(s =~= replies@);
                }
            }
            i += 1;
        }
        if addresses.len() == 0 {
            requests.push(EngineRequest { local_port, target_port, secret_key: None });
            if specs.len() < replies.len() {
                match &replies[specs.len()] {
                    Some(onion) => {
                        match &self.current_service {
                            Some(h) => {
                                control = h.control_endpoint.clone();
                            },
                            None => {},
                        }
                        addresses.push(onion.clone());
                    },
                    None => {},
                }
            }
        }
        let any_success = addresses.len() > 0;
        (
            BatchResult { onion_addresses: addresses, control_endpoint: control, any_success },
            requests,
        )
    }
}

} // verus!
