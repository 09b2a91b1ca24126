//! Service registration and dispatch

pub mod active;
pub mod chargen;
pub mod daytime;
pub mod discard;
pub mod echo;
pub mod gopher;
pub mod message;
pub mod qotd;
pub mod time;

use vstd::prelude::*;

use crate::utils::{decimal_text, push_decimal_text};
use crate::{tcp, udp};

verus! {

/// Listener configuration, built once at start-up and read-only afterwards
#[derive(Debug, Clone)]
pub struct Config {
    /// Offset added to every service's standard port
    pub base_port: u16,
    /// Host name announced by services that need one
    pub hostname: Option<String>,
}

/// Why a service could not be started over one transport
#[derive(Debug, Clone, PartialEq, Eq)]
pub enum ServiceErr {
    /// The configuration option `config_name` is needed but was not specified,
    /// the service `service_name` can't start
    MissingConfig { service_name: &'static str, config_name: &'static str },
    /// The service is not available over this transport and no handler task
    /// needs to be spawned
    NoHandler,
    /// The service usually runs on `usual_port`, and adding the `base_port`
    /// overflows a port number
    PortTooHigh { service_name: &'static str, usual_port: u16, base_port: u16 },
    /// Service initialization encountered another error
    Other(String),
}

/// The largest port number
pub const MAX_PORT: u16 = 65535;

/// `usual_port + base_port` if it is a valid port number
pub open spec fn mapped_port_spec(usual_port: u16, base_port: u16) -> Option<u16> {
    if usual_port + base_port <= MAX_PORT {
        Some((usual_port + base_port) as u16)
    } else {
        None
    }
}

/// Adds the configured offset to a standard port, without overflowing
pub fn mapped_port(usual_port: u16, base_port: u16) -> (r: Option<u16>)
    ensures
        r == mapped_port_spec(usual_port, base_port),
{
    usual_port.checked_add(base_port)
}

/// The text an operator sees for `e`
pub open spec fn message_spec(e: ServiceErr) -> Seq<char> {
    match e {
        ServiceErr::MissingConfig { service_name, config_name } => "the "@ + service_name@
            + " service requires the \""@ + config_name@
            + "\" configuration option, but it was not supplied and the service could not start (rerun with \"--"@
            + config_name@ + " [VALUE]\" to enable this service)"@,
        ServiceErr::NoHandler => NO_HANDLER_TEXT@,
        ServiceErr::PortTooHigh { service_name, usual_port, base_port } => "the "@ + service_name@
            + " service usually runs on port "@ + decimal_text(usual_port as nat)
            + ", but the base port was set to "@ + decimal_text(base_port as nat)
            + ", which makes the effective port value overflow (the effective port can be at most "@
            + decimal_text(MAX_PORT as nat)
            + ", rerun with a smaller \"--base-port\" value to enable this service)"@,
        ServiceErr::Other(cause) => cause@,
    }
}

/// The text of `NoHandler`, which the framework never shows
pub const NO_HANDLER_TEXT: &'static str = "the service has no handler over this protocol (this error is expected in some cases and should never be shown to users, as it should be handled internally - if you see this message in your terminal you've found a bug)";

impl ServiceErr {
    /// The text an operator sees for this error
    pub fn message(&self) -> (r: String)
        ensures
            r@ == message_spec(*self),
    {
        let mut out = String::new();
        match self {
            ServiceErr::MissingConfig { service_name, config_name } => {
                out.append("the ");
                out.append(service_name);
                out.append(" service requires the \"");
                out.append(config_name);
                out.append(
                    "\" configuration option, but it was not supplied and the service could not start (rerun with \"--",
                );
                out.append(config_name);
                out.append(" [VALUE]\" to enable this service)");
            },
            ServiceErr::NoHandler => {
                out.append(NO_HANDLER_TEXT);
            },
            ServiceErr::PortTooHigh { service_name, usual_port, base_port } => {
                out.append("the ");
                out.append(service_name);
                out.append(" service usually runs on port ");
                push_decimal_text(&mut out, *usual_port);
                out.append(", but the base port was set to ");
                push_decimal_text(&mut out, *base_port);
                out.append(
                    ", which makes the effective port value overflow (the effective port can be at most ",
                );
                push_decimal_text(&mut out, MAX_PORT);
                out.append(", rerun with a smaller \"--base-port\" value to enable this service)");
            },
            ServiceErr::Other(cause) => {
                out.append(cause.as_str());
            },
        }
        out
    }
}

/// A transport a service can be offered over
#[derive(Clone, Copy, PartialEq, Eq, Structural, Debug)]
pub enum Transport {
    Tcp,
    Udp,
}

/// What a service declares about itself: its name, its standard port, the
/// transports it has a handler for and whether it needs a host name
#[derive(Clone, Copy, Debug)]
pub struct ServiceInfo {
    pub name: &'static str,
    pub port: u16,
    pub tcp: bool,
    pub udp: bool,
    pub needs_hostname: bool,
}

/// Whether the service has a handler for `t`
pub open spec fn supports(info: ServiceInfo, t: Transport) -> bool {
    match t {
        Transport::Tcp => info.tcp,
        Transport::Udp => info.udp,
    }
}

/// What starting `info` over `t` gives: the port to listen on, or why the
/// service does not start there
pub open spec fn start_outcome(info: ServiceInfo, config: Config, t: Transport) -> Result<
    u16,
    ServiceErr,
> {
    if !supports(info, t) {
        Err(ServiceErr::NoHandler)
    } else if info.port + config.base_port > MAX_PORT {
        Err(
            ServiceErr::PortTooHigh {
                service_name: info.name,
                usual_port: info.port,
                base_port: config.base_port,
            },
        )
    } else if info.needs_hostname && config.hostname is None {
        Err(ServiceErr::MissingConfig { service_name: info.name, config_name: "hostname" })
    } else {
        Ok((info.port + config.base_port) as u16)
    }
}

/// Decides whether `info` starts over `t` under `config`, and on which port
pub fn start(info: &ServiceInfo, config: &Config, t: Transport) -> (r: Result<u16, ServiceErr>)
    ensures
        r == start_outcome(*info, *config, t),
{
    let supported = match t {
        Transport::Tcp => info.tcp,
        Transport::Udp => info.udp,
    };
    if !supported {
        return Err(ServiceErr::NoHandler);
    }
    match mapped_port(info.port, config.base_port) {
        None => Err(
            ServiceErr::PortTooHigh {
                service_name: info.name,
                usual_port: info.port,
                base_port: config.base_port,
            },
        ),
        Some(port) => {
            let missing = match &config.hostname {
                Some(_) => false,
                None => true,
            };
            if info.needs_hostname && missing {
                Err(ServiceErr::MissingConfig { service_name: info.name, config_name: "hostname" })
            } else {
                Ok(port)
            }
        },
    }
}

/// A protocol that can be served over TCP, UDP or both
pub trait SimpleService {
    /// What the service declares about itself
    spec fn info() -> ServiceInfo;

    /// The declaration of the service, as a value
    fn descriptor() -> (r: ServiceInfo)
        ensures
            r == Self::info(),
    ;

    /// The port to serve this service on over TCP, or why it does not start;
    /// `NoHandler` where the service has no TCP handler
    fn tcp(config: &Config) -> (r: Result<u16, ServiceErr>)
        ensures
            r == start_outcome(Self::info(), *config, Transport::Tcp),
    {
        start(&Self::descriptor(), config, Transport::Tcp)
    }

    /// The port to serve this service on over UDP, or why it does not start;
    /// `NoHandler` where the service has no UDP handler
    fn udp(config: &Config) -> (r: Result<u16, ServiceErr>)
        ensures
            r == start_outcome(Self::info(), *config, Transport::Udp),
    {
        start(&Self::descriptor(), config, Transport::Udp)
    }
}

/// What the framework does with one transport of one service
#[derive(Debug, Clone, PartialEq, Eq)]
pub enum Launch {
    /// Listen on this port and hand every connection or session to the handler
    Start(u16),
    /// The service has no handler for this transport: nothing to do, nothing to log
    Skip,
    /// The transport does not start; the error is reported
    Report(ServiceErr),
}

pub open spec fn launch_spec(r: Result<u16, ServiceErr>) -> Launch {
    match r {
        Ok(port) => Launch::Start(port),
        Err(ServiceErr::NoHandler) => Launch::Skip,
        Err(e) => Launch::Report(e),
    }
}

/// Turns the outcome of a start attempt into what the framework does:
/// `NoHandler` is swallowed, every other error is reported
pub fn launch(r: Result<u16, ServiceErr>) -> (l: Launch)
    ensures
        l == launch_spec(r),
{
    match r {
        Ok(port) => Launch::Start(port),
        Err(ServiceErr::NoHandler) => Launch::Skip,
        Err(e) => Launch::Report(e),
    }
}

/// One entry of a start-up plan
#[derive(Debug, Clone, PartialEq, Eq)]
pub struct Step {
    pub service: &'static str,
    pub transport: Transport,
    pub launch: Launch,
}

pub open spec fn transport_at(k: int) -> Transport {
    if k % 2 == 0 {
        Transport::Tcp
    } else {
        Transport::Udp
    }
}

/// The position of a service's transport in a plan
pub open spec fn slot(i: int, t: Transport) -> int {
    match t {
        Transport::Tcp => 2 * i,
        Transport::Udp => 2 * i + 1,
    }
}

pub open spec fn step_spec(info: ServiceInfo, config: Config, t: Transport) -> Step {
    Step { service: info.name, transport: t, launch: launch_spec(start_outcome(info, config, t)) }
}

/// The start-up plan: for each service in order, its TCP then its UDP step
pub open spec fn plan_spec(config: Config, services: Seq<ServiceInfo>) -> Seq<Step> {
    Seq::new(
        2 * services.len(),
        |k: int| step_spec(services[k / 2], config, transport_at(k)),
    )
}

/// Decides, for every service and transport, whether it starts and on which port
pub fn plan(config: &Config, services: &Vec<ServiceInfo>) -> (r: Vec<Step>)
    requires
        2 * services@.len() <= usize::MAX,
    ensures
        r@ == plan_spec(*config, services@),
{
    let mut r: Vec<Step> = Vec::new();
    let mut i: usize = 0;
    while i < services.len()
        invariant
            i <= services@.len(),
            2 * services@.len() <= usize::MAX,
            r@.len() == 2 * i,
            forall|k: int|
                0 <= k < 2 * i ==> #[trigger] r@[k] == step_spec(
                    services@[k / 2],
                    *config,
                    transport_at(k),
                ),
        decreases services@.len() - i,
    {
        let info = &services[i];
        let t = start(info, config, Transport::Tcp);
        r.push(Step { service: info.name, transport: Transport::Tcp, launch: launch(t) });
        let u = start(info, config, Transport::Udp);
        r.push(Step { service: info.name, transport: Transport::Udp, launch: launch(u) });
        i = i + 1;
    }
    assert(r@ =~= plan_spec(*config, services@));
    r
}

pub open spec fn registry_spec() -> Seq<ServiceInfo> {
    seq![
        active::Service::info(),
        chargen::Service::info(),
        daytime::Service::info(),
        discard::Service::info(),
        echo::Service::info(),
        gopher::Service::info(),
        message::Service::info(),
        qotd::Service::info(),
        time::Service::info(),
    ]
}

/// Every service this server knows, in start-up order
pub fn registry() -> (r: Vec<ServiceInfo>)
    ensures
        r@ == registry_spec(),
{
    let r = vec![
        active::Service::descriptor(),
        chargen::Service::descriptor(),
        daytime::Service::descriptor(),
        discard::Service::descriptor(),
        echo::Service::descriptor(),
        gopher::Service::descriptor(),
        message::Service::descriptor(),
        qotd::Service::descriptor(),
        time::Service::descriptor(),
    ];
    assert(r@ =~= registry_spec());
    r
}

/// The plan for every known service under `config`
pub fn spawn_plan(config: &Config) -> (r: Vec<Step>)
    ensures
        r@ == plan_spec(*config, registry_spec()),
{
    let services = registry();
    plan(config, &services)
}

/// A service offered over a transport, whose standard port `p` satisfies
/// `p <= 65535 - base_port` and whose configuration is complete, starts on
/// exactly `p + base_port`, with one IPv4 socket and one IPv6-only socket
/// bound to that port.
pub proof fn law_started_on_mapped_port(info: ServiceInfo, config: Config, t: Transport)
    requires
        supports(info, t),
        info.port <= MAX_PORT - config.base_port,
        !info.needs_hostname || config.hostname is Some,
    ensures
        start_outcome(info, config, t) == Ok::<u16, ServiceErr>((info.port + config.base_port) as u16),
        ({
            let port = (info.port + config.base_port) as u16;
            &&& t == Transport::Tcp ==> {
                let plans = tcp::bind_plans_spec(port);
                &&& plans.len() == 2
                &&& plans[0].family == tcp::Family::V4 && plans[0].port == port && !plans[0].only_v6
                &&& plans[1].family == tcp::Family::V6 && plans[1].port == port && plans[1].only_v6
            }
            &&& t == Transport::Udp ==> {
                let plans = udp::bind_plans_spec(port);
                &&& plans.len() == 2
                &&& plans[0].family == tcp::Family::V4 && plans[0].port == port && !plans[0].only_v6
                &&& plans[1].family == tcp::Family::V6 && plans[1].port == port && plans[1].only_v6
            }
        }),
{
}

/// A service whose standard port plus `base_port` exceeds 65535 is not
/// started on any transport it offers: a `PortTooHigh` naming the service,
/// its usual port and the offset is reported instead. Every other service
/// whose mapped port fits and whose configuration is complete still starts.
pub proof fn law_overflow_blocks_only_its_service(
    config: Config,
    services: Seq<ServiceInfo>,
    i: int,
)
    requires
        0 <= i < services.len(),
        services[i].port + config.base_port > MAX_PORT,
    ensures
        forall|t: Transport|
            supports(services[i], t) ==> #[trigger] plan_spec(config, services)[slot(i, t)].launch
                == Launch::Report(
                ServiceErr::PortTooHigh {
                    service_name: services[i].name,
                    usual_port: services[i].port,
                    base_port: config.base_port,
                },
            ),
        forall|j: int, t: Transport|
            0 <= j < services.len() && supports(services[j], t) && services[j].port
                + config.base_port <= MAX_PORT && (!services[j].needs_hostname
                || config.hostname is Some) ==> #[trigger] plan_spec(config, services)[slot(
                j,
                t,
            )].launch == Launch::Start((services[j].port + config.base_port) as u16),
{
    assert forall|t: Transport| supports(services[i], t) implies #[trigger] plan_spec(
        config,
        services,
    )[slot(i, t)].launch == Launch::Report(
        ServiceErr::PortTooHigh {
            service_name: services[i].name,
            usual_port: services[i].port,
            base_port: config.base_port,
        },
    ) by {
        lemma_plan_slot(config, services, i, t);
    }
    assert forall|j: int, t: Transport|
        0 <= j < services.len() && supports(services[j], t) && services[j].port + config.base_port
            <= MAX_PORT && (!services[j].needs_hostname
            || config.hostname is Some) implies #[trigger] plan_spec(config, services)[slot(
        j,
        t,
    )].launch == Launch::Start((services[j].port + config.base_port) as u16) by {
        lemma_plan_slot(config, services, j, t);
    }
}

/// Without a configured host name, no service that needs one starts, on
/// any transport; every service that needs none starts wherever its mapped
/// port fits.
pub proof fn law_missing_hostname_blocks_only_its_services(config: Config, services: Seq<ServiceInfo>)
    requires
        config.hostname is None,
    ensures
        forall|j: int, t: Transport|
            0 <= j < services.len() && services[j].needs_hostname ==> !(#[trigger] plan_spec(
                config,
                services,
            )[slot(j, t)].launch is Start),
        forall|j: int, t: Transport|
            0 <= j < services.len() && !services[j].needs_hostname && supports(services[j], t)
                && services[j].port + config.base_port <= MAX_PORT ==> #[trigger] plan_spec(
                config,
                services,
            )[slot(j, t)].launch == Launch::Start((services[j].port + config.base_port) as u16),
{
    assert forall|j: int, t: Transport|
        0 <= j < services.len() && services[j].needs_hostname implies !(#[trigger] plan_spec(
        config,
        services,
    )[slot(j, t)].launch is Start) by {
        lemma_plan_slot(config, services, j, t);
    }
    assert forall|j: int, t: Transport|
        0 <= j < services.len() && !services[j].needs_hostname && supports(services[j], t)
            && services[j].port + config.base_port <= MAX_PORT implies #[trigger] plan_spec(
        config,
        services,
    )[slot(j, t)].launch == Launch::Start((services[j].port + config.base_port) as u16) by {
        lemma_plan_slot(config, services, j, t);
    }
}

proof fn lemma_plan_slot(config: Config, services: Seq<ServiceInfo>, i: int, t: Transport)
    requires
        0 <= i < services.len(),
    ensures
        0 <= slot(i, t) < plan_spec(config, services).len(),
        plan_spec(config, services)[slot(i, t)] == step_spec(services[i], config, t),
{
    let k = slot(i, t);
    assert(k / 2 == i);
    assert(transport_at(k) == t);
}

} // verus!
