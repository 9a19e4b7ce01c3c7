//! How the engine is named, placed and started.
use vstd::prelude::*;
use vstd::string::StringExecFns;

use crate::hixl::error::HixlError;
use crate::hixl::memory::MemTable;
use crate::hixl::state::{is_hixl_initialized, EngineView, HixlEngineState};
use crate::text::{
    decimal, eq_ignoring_case, optional_text, parse_i32, parsed_i32, push_decimal, push_signed,
    same_but_case, same_text, signed_decimal,
};

verus! {

/// What a manager is told about the engine.
#[derive(Debug, Clone, PartialEq, Eq)]
pub struct HixlConfig {
    pub engine_id: Option<String>,
    pub device_id: Option<i32>,
}

impl Default for HixlConfig {
    /// Nothing: the environment decides.
    fn default() -> (config: Self)
        ensures
            config.engine_id is None,
            config.device_id is None,
    {
        HixlConfig { engine_id: None, device_id: None }
    }
}

/// The lowest port of a generated engine name.
pub const FIRST_ENGINE_PORT: u32 = 20_000;

/// How many ports generated engine names use.
pub const ENGINE_PORTS: u32 = 40_000;

/// The name of the engine: the hint if there is one, then what the environment
/// says, then the generated name.
pub open spec fn chosen_engine_id(
    hint: Seq<char>,
    env: Option<Seq<char>>,
    generated: Seq<char>,
) -> Seq<char> {
    if hint.len() > 0 {
        hint
    } else {
        match env {
            Some(name) => name,
            None => generated,
        }
    }
}

/// Selects the name of the engine. `env` is what `MONARCH_PYTHON_HIXL_ENGINE_ID`
/// says, and `generated` comes from [`generated_engine_id`].
pub fn resolve_engine_id(hint: &str, env: Option<String>, generated: String) -> (engine_id: String)
    ensures
        engine_id@ == chosen_engine_id(hint@, optional_text(env), generated@),
{
    if hint.unicode_len() > 0 {
        return hint.to_owned();
    }
    match env {
        Some(name) => name,
        None => generated,
    }
}

/// Whether the name of the engine has to be generated.
pub fn needs_generated_id(hint: &str, env: &Option<String>) -> (yes: bool)
    ensures
        yes == (hint@.len() == 0 && *env is None),
{
    hint.unicode_len() == 0 && env.is_none()
}

/// The port of the engine of a process.
pub open spec fn engine_port(pid: u32) -> u32 {
    (FIRST_ENGINE_PORT + pid % ENGINE_PORTS) as u32
}

/// The name of an engine that was not given one: its host and a port by process.
pub fn generated_engine_id(ip: &str, pid: u32) -> (engine_id: String)
    ensures
        engine_id@ == ip@ + ":"@ + decimal(engine_port(pid) as nat),
        FIRST_ENGINE_PORT <= engine_port(pid) < FIRST_ENGINE_PORT + ENGINE_PORTS,
{
    let mut engine_id = ip.to_owned();
    engine_id.append(":");
    push_decimal(&mut engine_id, (FIRST_ENGINE_PORT + pid % ENGINE_PORTS) as u64);
    engine_id
}

/// The device: the hint unless it is negative, then what the environment says, if
/// that is a number, then device zero.
pub open spec fn chosen_device_id(hint: i32, env: Option<&str>) -> i32 {
    if hint >= 0 {
        hint
    } else {
        match env {
            Some(text) => match parsed_i32(text@) {
                Some(number) => number,
                None => 0,
            },
            None => 0,
        }
    }
}

/// Selects the device. `env` is what `MONARCH_NPU_DEVICE` says.
pub fn resolve_device_id(hint: i32, env: Option<&str>) -> (device_id: i32)
    ensures
        device_id == chosen_device_id(hint, env),
{
    if hint >= 0 {
        return hint;
    }
    match env {
        Some(text) => match parse_i32(text) {
            Some(number) => number,
            None => 0,
        },
        None => 0,
    }
}

/// How the transport is set up before the engine is created.
#[derive(Debug, Clone, Copy, PartialEq, Eq, Structural)]
pub struct TransportPlan {
    /// Use RoCE: `HCCL_INTRA_ROCE_ENABLE` is set to `1`. Otherwise use HCCS: it is
    /// removed.
    pub force_roce: bool,
    /// `HCCL_NPU_SOCKET_PORT_RANGE` is set to `auto`.
    pub auto_port_range: bool,
}

/// Whether the environment asks for RoCE: by naming the transport, in whatever
/// case, or by the switch.
pub open spec fn asks_for_roce(transport: Option<&str>, use_roce: Option<&str>) -> bool {
    ||| transport matches Some(name) && same_but_case(name@, "roce"@)
    ||| use_roce matches Some(switch) && switch@ == "1"@
}

/// Selects the transport. `transport` is what `MONARCH_HIXL_TRANSPORT` says and
/// `use_roce` what `MONARCH_HIXL_USE_ROCE` says; HCCS is the default.
///
/// Only the ASCII letters have the letters of `roce` as their lower-case forms, so
/// the case of other letters does not matter.
pub fn select_transport(
    transport: Option<&str>,
    use_roce: Option<&str>,
    port_range_set: bool,
) -> (plan: TransportPlan)
    ensures
        plan.force_roce == asks_for_roce(transport, use_roce),
        plan.auto_port_range == (!plan.force_roce && !port_range_set),
{
    let named: bool = match transport {
        Some(name) => eq_ignoring_case(name, "roce"),
        None => false,
    };
    let switched: bool = match use_roce {
        Some(switch) => same_text(switch, "1"),
        None => false,
    };
    let force_roce: bool = named || switched;
    TransportPlan { force_roce, auto_port_range: !force_roce && !port_range_set }
}

/// Decides how to create the engine; there is nothing to do where there is one.
pub fn init_engine_on_dedicated_thread(
    engine: &Option<HixlEngineState>,
    transport: Option<&str>,
    use_roce: Option<&str>,
    port_range_set: bool,
) -> (plan: Option<TransportPlan>)
    ensures
        match plan {
            Some(p) => {
                &&& *engine is None
                &&& p.force_roce == asks_for_roce(transport, use_roce)
                &&& p.auto_port_range == (!p.force_roce && !port_range_set)
            },
            None => *engine is Some,
        },
{
    if is_hixl_initialized(engine) {
        None
    } else {
        Some(select_transport(transport, use_roce, port_range_set))
    }
}

/// Whether `MONARCH_HIXL_ENABLE_ALIAS` turns aliasing on.
pub open spec fn turns_aliasing_on(value: Option<&str>) -> bool {
    value matches Some(text) && (text@ == "1"@ || same_but_case(text@, "true"@))
}

/// Reads `MONARCH_HIXL_ENABLE_ALIAS`.
pub fn alias_enabled(value: Option<&str>) -> (on: bool)
    ensures
        on == turns_aliasing_on(value),
{
    match value {
        Some(text) => same_text(text, "1") || eq_ignoring_case(text, "true"),
        None => false,
    }
}

/// The name of the thread that creates the engine of a device.
pub fn init_thread_name(device_id: i32) -> (name: String)
    ensures
        name@ == "hixl-init-dev"@ + signed_decimal(device_id as int),
{
    let mut name = String::from_str("hixl-init-dev");
    push_signed(&mut name, device_id);
    name
}

/// How the creation of the engine went.
#[derive(Debug, Clone, PartialEq, Eq)]
pub enum InitOutcome {
    /// The engine exists.
    Created,
    /// The thread did not start.
    NoThread(String),
    /// The thread ended without an answer.
    NoAnswer(String),
    /// The engine could not be created.
    Failed(String),
}

/// Makes the state of an engine of what its creation came to. `alias_value` is what
/// `MONARCH_HIXL_ENABLE_ALIAS` says.
pub fn do_init_engine(
    engine_id: &str,
    force_roce: bool,
    alias_value: Option<&str>,
    outcome: InitOutcome,
) -> (state: Result<HixlEngineState, HixlError>)
    ensures
        match outcome {
            InitOutcome::Created => {
                &&& state matches Ok(s)
                &&& s.wf()
                &&& s@ == (EngineView {
                    engine_id: engine_id@,
                    peers: Set::empty(),
                    mem: MemTable::empty(),
                    force_roce,
                    alias_enabled: turns_aliasing_on(alias_value),
                })
            },
            InitOutcome::NoThread(reason) => state == Err::<HixlEngineState, HixlError>(
                HixlError::InitSpawn(reason),
            ),
            InitOutcome::NoAnswer(reason) => state == Err::<HixlEngineState, HixlError>(
                HixlError::InitChannel(reason),
            ),
            InitOutcome::Failed(reason) => state == Err::<HixlEngineState, HixlError>(
                HixlError::InitEngine(reason),
            ),
        },
{
    match outcome {
        InitOutcome::Created => Ok(
            HixlEngineState::new(engine_id.to_owned(), force_roce, alias_enabled(alias_value)),
        ),
        InitOutcome::NoThread(reason) => Err(HixlError::InitSpawn(reason)),
        InitOutcome::NoAnswer(reason) => Err(HixlError::InitChannel(reason)),
        InitOutcome::Failed(reason) => Err(HixlError::InitEngine(reason)),
    }
}

/// The port of an engine is the process number, folded into the forty thousand ports
/// from 20000 on.
pub proof fn law_port_follows_the_process(pid: u32)
    ensures
        20_000 <= engine_port(pid) < 60_000,
        pid < 40_000 ==> engine_port(pid) == 20_000 + pid,
        pid >= 40_000 ==> engine_port(pid) == engine_port((pid - 40_000) as u32),
{
}

/// A hint names the engine; without one the environment does; without either the name
/// is the generated one.
pub proof fn law_engine_is_named_in_order(
    hint: Seq<char>,
    env: Option<Seq<char>>,
    generated: Seq<char>,
)
    ensures
        hint.len() > 0 ==> chosen_engine_id(hint, env, generated) == hint,
        hint.len() == 0 ==> (env matches Some(name) ==> chosen_engine_id(hint, env, generated)
            == name),
        hint.len() == 0 && env is None ==> chosen_engine_id(hint, env, generated) == generated,
{
}

/// A hint that is not negative is the device; otherwise the environment is, if it holds
/// a number; otherwise it is device zero.
pub proof fn law_device_is_chosen_in_order(hint: i32, env: Option<&str>)
    ensures
        hint >= 0 ==> chosen_device_id(hint, env) == hint,
        hint < 0 && env is None ==> chosen_device_id(hint, env) == 0,
        hint < 0 ==> (env matches Some(text) ==> match parsed_i32(text@) {
            Some(number) => chosen_device_id(hint, env) == number,
            None => chosen_device_id(hint, env) == 0,
        }),
{
}

/// RoCE is used exactly if the transport is named so, in whatever case, or the switch is
/// set to one.
pub proof fn law_roce_has_to_be_asked_for(transport: Option<&str>, use_roce: Option<&str>)
    ensures
        transport is None && use_roce is None ==> !asks_for_roce(transport, use_roce),
        transport matches Some(name) ==> (name@ == "roce"@ ==> asks_for_roce(transport, use_roce)),
        transport matches Some(name) ==> (asks_for_roce(transport, use_roce) && use_roce is None
            ==> same_but_case(name@, "roce"@)),
        use_roce matches Some(switch) ==> (switch@ == "1"@ ==> asks_for_roce(
            transport,
            use_roce,
        )),
        use_roce matches Some(switch) ==> (asks_for_roce(transport, use_roce) && transport is None
            ==> switch@ == "1"@),
        transport matches Some(name) ==> (use_roce matches Some(switch) ==> (asks_for_roce(
            transport,
            use_roce,
        ) ==> same_but_case(name@, "roce"@) || switch@ == "1"@)),
{
}

/// Aliasing is on exactly if it is set to one or to true, in whatever case.
pub proof fn law_aliasing_has_to_be_enabled(value: Option<&str>)
    ensures
        value is None ==> !turns_aliasing_on(value),
        value matches Some(text) ==> (turns_aliasing_on(value) <==> text@ == "1"@ || same_but_case(
            text@,
            "true"@,
        )),
{
}

} // verus!
