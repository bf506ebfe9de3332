//! The idempotent "ensure running and publish" workflow: one-time setup,
//! service construction only when nothing usable is running, then batch
//! hidden-service publication with fallback.

use vstd::prelude::*;

use crate::hidden::batch_addresses;
use crate::hidden::HiddenServiceKeySpec;
use crate::json::json_of;
use crate::json::json_of_strings;
use crate::json::parse_key_specs;
use crate::json::spec_parsed_key_specs;
use crate::registry::PhaseReport;
use crate::registry::ServiceHandle;
use crate::registry::ServiceRegistry;
use crate::registry::StatusCode;

verus! {

/// The aggregated outcome of the startup workflow.  `onion_addresses_json`
/// is the JSON array of every published address; `onion_address` is the
/// first of them.
#[derive(Clone, Debug)]
pub struct StartTorResponse {
    pub is_success: bool,
    pub onion_address: String,
    pub control: String,
    pub error_message: String,
    pub onion_addresses_json: String,
}

/// Whether the workflow must construct a service: none exists, or the one
/// that does reports an error when asked for its phase.
pub open spec fn needs_init(s: ServiceRegistry, phase: PhaseReport) -> bool {
    s.current_service is None || phase == PhaseReport::Failed
}

/// The registry the startup workflow leaves behind: setup armed, and the
/// engine's construction installed exactly when construction was needed
/// and succeeded.
pub open spec fn startup_registry_after(
    s: ServiceRegistry,
    phase: PhaseReport,
    construction: Option<ServiceHandle>,
) -> ServiceRegistry {
    ServiceRegistry {
        initialized: true,
        current_service: if needs_init(s, phase) && construction is Some {
            construction
        } else {
            s.current_service
        },
    }
}

/// How many specs an optional batch holds.
pub open spec fn specs_count(key_specs: Option<Vec<HiddenServiceKeySpec>>) -> int {
    match key_specs {
        Some(v) => v@.len() as int,
        None => 0,
    }
}

/// How many specs an optional decoded batch holds.
pub open spec fn spec_specs_count(key_specs: Option<Seq<HiddenServiceKeySpec>>) -> int {
    match key_specs {
        Some(v) => v.len() as int,
        None => 0,
    }
}

/// The key specs a JSON text hands the workflow: none for the empty text,
/// otherwise whatever the text decodes to (an undecodable text also hands
/// none, the documented silent degrade).
pub open spec fn spec_start_specs(keys_json: String) -> Option<Seq<HiddenServiceKeySpec>> {
    if keys_json@.len() == 0 {
        None
    } else {
        spec_parsed_key_specs(keys_json@)
    }
}

/// The whole outcome the startup workflow owes for `n` key specs: the
/// final registry state, the construction-failure response, and otherwise
/// the batch-with-fallback response over the reply script.
pub open spec fn startup_post(
    s: ServiceRegistry,
    phase: PhaseReport,
    construction: Option<ServiceHandle>,
    n: int,
    replies: Seq<Option<String>>,
    s2: ServiceRegistry,
    r: StartTorResponse,
) -> bool {
    &&& s2 == startup_registry_after(s, phase, construction)
    &&& (needs_init(s, phase) && construction is None ==> (!r.is_success && r.onion_address@
        == Seq::<char>::empty() && r.control@ == Seq::<char>::empty() && r.error_message@
        == "Failed to initialize Tor service"@ && r.onion_addresses_json@ == Seq::<
        char,
    >::empty()))
    &&& (!(needs_init(s, phase) && construction is None) ==> (s2.current_service matches Some(h)
        ==> ({
        let addrs = batch_addresses(replies, n);
        &&& (r.is_success <==> addrs.len() > 0)
        &&& (addrs.len() > 0 ==> r.onion_address == addrs[0] && r.control == h.control_endpoint
            && r.error_message@ == Seq::<char>::empty() && r.onion_addresses_json@ == json_of(
            addrs,
        ))
        &&& (addrs.len() == 0 ==> !r.is_success && r.onion_address@ == Seq::<char>::empty()
            && r.control@ == Seq::<char>::empty() && r.error_message@
            == "Failed to create hidden service"@ && r.onion_addresses_json@ == json_of(
            Seq::<String>::empty(),
        ))
    })))
}

impl ServiceRegistry {
    /// Ensures the library is set up and a service is running, then
    /// publishes hidden services: the whole batch when it yields at least
    /// one success, else one fallback attempt with a random key.  Repeated
    /// calls against a running service attach further hidden services
    /// instead of reconstructing it.  `construction` is the engine's answer
    /// to a construction request, consulted only when the status is not
    /// ready; `replies@[i]` answers the `i`-th creation request.
    pub fn ensure_running_and_publish(
        &mut self,
        local_port: u16,
        target_port: u16,
        key_specs: Option<Vec<HiddenServiceKeySpec>>,
        phase: PhaseReport,
        construction: Option<ServiceHandle>,
        replies: &Vec<Option<String>>,
    ) -> (r: StartTorResponse)
        ensures
            startup_post(
                *old(self),
                phase,
                construction,
                specs_count(key_specs),
                replies@,
                *final(self),
                r,
            ),
    {
        self.initialize_tor_library();
        let status = self.get_service_status(phase);
        let needs = match status {
            StatusCode::NotReady => true,
            _ => false,
        };
        if needs {
            if !self.init_tor_service(construction) {
                return StartTorResponse {
                    is_success: false,
                    onion_address: String::new(),
                    control: String::new(),
                    error_message: String::from_str("Failed to initialize Tor service"),
                    onion_addresses_json: String::new(),
                };
            }
        }
        let empty_specs: Vec<HiddenServiceKeySpec> = Vec::new();
        let specs_ref: &Vec<HiddenServiceKeySpec> = match &key_specs {
            Some(v) => v,
            None => &empty_specs,
        };
        let (batch, _requests) = self.create_batch(local_port, target_port, specs_ref, replies);
        if batch.any_success {
            let json = json_of_strings(&batch.onion_addresses);
            let first = batch.onion_addresses[0].clone();
            StartTorResponse {
                is_success: true,
                onion_address: first,
                control: batch.control_endpoint,
                error_message: String::new(),
                onion_addresses_json: json,
            }
        } else {
            proof {
                assert(batch.onion_addresses@ =~= Seq::<String>::empty());
            }
            let json = json_of_strings(&batch.onion_addresses);
            StartTorResponse {
                is_success: false,
                onion_address: String::new(),
                control: String::new(),
                error_message: String::from_str("Failed to create hidden service"),
                onion_addresses_json: json,
            }
        }
    }

    /// The startup workflow fed from JSON text: decodes the key specs
    /// (treating undecodable text as "no usable specs", which silently
    /// degrades to one randomly-keyed service) and runs
    /// `ensure_running_and_publish`, the SOCKS port doubling as the
    /// hidden-service port by convention.  `data_dir` and
    /// `timeout_ms` parameterize the construction request the embedding
    /// puts to the engine.
    #[allow(unused_variables)]
    pub fn start_tor_if_not_running(
        &mut self,
        data_dir: String,
        socks_port: u16,
        target_port: u16,
        timeout_ms: u64,
        keys_json: String,
        phase: PhaseReport,
        construction: Option<ServiceHandle>,
        replies: &Vec<Option<String>>,
    ) -> (r: StartTorResponse)
        ensures
            startup_post(
                *old(self),
                phase,
                construction,
                spec_specs_count(spec_start_specs(keys_json)),
                replies@,
                *final(self),
                r,
            ),
    {
        let specs = if keys_json.as_str().unicode_len() > 0 {
            parse_key_specs(keys_json.as_str())
        } else {
            None
        };
        proof {
            match &specs {
                Some(v) => {
                    assert(spec_start_specs(keys_json) == Some(v@));
                },
                None => {
                    assert(spec_specs_count(spec_start_specs(keys_json)) == 0);
                },
            }
        }
        self.ensure_running_and_publish(
            socks_port,
            target_port,
            specs,
            phase,
            construction,
            replies,
        )
    }
}

/// Starting the workflow when a service is already running, or when the
/// engine constructs one, settles the registry: a second run with a live
/// phase reuses the same handle and changes nothing, however many further
/// hidden services it publishes.
pub proof fn lemma_startup_reuses_running_service(
    s: ServiceRegistry,
    phase: PhaseReport,
    c1: Option<ServiceHandle>,
    c2: Option<ServiceHandle>,
)
    requires
        phase != PhaseReport::Failed,
        s.current_service is Some || c1 is Some,
    ensures
        startup_registry_after(startup_registry_after(s, phase, c1), phase, c2)
            == startup_registry_after(s, phase, c1),
        s.current_service is Some ==> startup_registry_after(s, phase, c1).current_service
            == s.current_service,
{
}

} // verus!
