//! The session description: a builder that accumulates and validates the
//! fields of one launch, and the validated, immutable options value it
//! produces.

use vstd::prelude::*;
use vstd::string::*;
use crate::address::{DPAddressPart, DPAddressValue, DPGUIDOrNamed};
use crate::guid::Guid;

verus! {

/// The kind of session to create: hosting (with an optional session
/// identifier; absent means the external tool generates one) or joining an
/// existing session by identifier.
#[derive(Clone, Copy)]
pub enum SessionType {
    /// Host a session, optionally under a fixed identifier.
    Host(Option<Guid>),
    /// Join the session with the given identifier.
    Join(Guid),
}

/// The bytes of the identifier of the loopback service provider, the one
/// relayed through the local callback server.
pub open spec fn loopback_provider_bytes() -> Seq<u8> {
    seq![
        0xb1u8,
        0xedu8,
        0x23u8,
        0x67u8,
        0x60u8,
        0x9bu8,
        0x4cu8,
        0x5cu8,
        0x87u8,
        0x55u8,
        0xd2u8,
        0xa2u8,
        0x9bu8,
        0xb9u8,
        0xa5u8,
        0x54u8,
    ]
}

/// The identifier of the loopback service provider.
pub fn guid_loopback_provider() -> (g: Guid)
    ensures
        g@ == loopback_provider_bytes(),
{
    let g = Guid::from_bytes(
        [
            0xb1u8,
            0xedu8,
            0x23u8,
            0x67u8,
            0x60u8,
            0x9bu8,
            0x4cu8,
            0x5cu8,
            0x87u8,
            0x55u8,
            0xd2u8,
            0xa2u8,
            0x9bu8,
            0xb9u8,
            0xa5u8,
            0x54u8,
        ],
    );
    proof {
        assert(g@ =~= loopback_provider_bytes());
    }
    g
}

/// The bytes of the identifier of the address-part type that carries a port
/// number.
pub open spec fn inet_port_bytes() -> Seq<u8> {
    seq![
        0xe4u8,
        0x52u8,
        0x45u8,
        0x41u8,
        0x8eu8,
        0xa5u8,
        0x11u8,
        0xd1u8,
        0x8au8,
        0x96u8,
        0x00u8,
        0x60u8,
        0x97u8,
        0xb0u8,
        0x14u8,
        0x11u8,
    ]
}

/// The identifier of the address-part type that carries a port number.
pub fn guid_inet_port() -> (g: Guid)
    ensures
        g@ == inet_port_bytes(),
{
    let g = Guid::from_bytes(
        [
            0xe4u8,
            0x52u8,
            0x45u8,
            0x41u8,
            0x8eu8,
            0xa5u8,
            0x11u8,
            0xd1u8,
            0x8au8,
            0x96u8,
            0x00u8,
            0x60u8,
            0x97u8,
            0xb0u8,
            0x14u8,
            0x11u8,
        ],
    );
    proof {
        assert(g@ =~= inet_port_bytes());
    }
    g
}

/// Whether an identifier-or-alias selects the loopback provider, by
/// identifier equality or by alias-name equality.
pub open spec fn is_loopback_provider(p: DPGUIDOrNamed) -> bool {
    ||| (p matches DPGUIDOrNamed::GUID(g) && g@ == loopback_provider_bytes())
    ||| (p matches DPGUIDOrNamed::Named(s) && s@ == "DPRUN"@)
}

/// Decides whether an identifier-or-alias selects the loopback provider.
pub fn check_loopback_provider(p: &DPGUIDOrNamed) -> (r: bool)
    ensures
        r == is_loopback_provider(*p),
{
    match p {
        DPGUIDOrNamed::GUID(g) => {
            let loopback = guid_loopback_provider();
            g.eq_guid(&loopback)
        },
        DPGUIDOrNamed::Named(s) => {
            let alias = String::from_str("DPRUN");
            *s == alias
        },
    }
}

/// Whether an identifier-or-alias is the address-part type that carries a
/// port number, by identifier equality or by alias-name equality.
pub open spec fn is_port_key(k: DPGUIDOrNamed) -> bool {
    ||| (k matches DPGUIDOrNamed::GUID(g) && g@ == inet_port_bytes())
    ||| (k matches DPGUIDOrNamed::Named(s) && s@ == "INetPort"@)
}

/// Decides whether an identifier-or-alias is the port-carrying address-part
/// type.
pub fn check_port_key(k: &DPGUIDOrNamed) -> (r: bool)
    ensures
        r == is_port_key(*k),
{
    match k {
        DPGUIDOrNamed::GUID(g) => {
            let inet_port = guid_inet_port();
            g.eq_guid(&inet_port)
        },
        DPGUIDOrNamed::Named(s) => {
            let alias = String::from_str("INetPort");
            *s == alias
        },
    }
}

/// The low 16 bits of a numeric value, read as the external tool reads a
/// port number.
pub open spec fn low16(v: int) -> int
    recommends
        -0x8000_0000 <= v < 0x8000_0000,
{
    (v + 0x1_0000_0000) % 0x1_0000
}

/// The port a port-keyed address part denotes: the low 16 bits of a numeric
/// value, or the default port when the part carries no number.
pub open spec fn port_of_value(v: DPAddressValue) -> u16 {
    match v {
        DPAddressValue::Number(n) => low16(n as int) as u16,
        _ => 2197u16,
    }
}

/// The port denoted by the first port-keyed address part, if any.
pub open spec fn find_port(parts: Seq<DPAddressPart>) -> Option<u16>
    decreases parts.len(),
{
    if parts.len() == 0 {
        None
    } else if is_port_key(parts[0].data_type) {
        Some(port_of_value(parts[0].value))
    } else {
        find_port(parts.drop_first())
    }
}

/// A precondition failure reported by [`DPRunOptionsBuilder::finish`]: a
/// required field is missing, or the loopback provider was selected without
/// a callback handler to receive its relayed messages.
#[derive(Clone, Copy, Debug, PartialEq, Eq, Structural)]
pub enum BuildError {
    /// No session type was set.
    MissingSessionType,
    /// No player name was set.
    MissingPlayerName,
    /// No service provider was set.
    MissingServiceProvider,
    /// No application identifier was set.
    MissingApplication,
    /// The loopback provider was selected, but no callback handler was
    /// registered.
    LoopbackWithoutHandler,
}

/// Accumulates the fields of one session description. `H` is the
/// caller-supplied callback handler capability; this library never reads
/// into it, only tracks its presence.
pub struct DPRunOptionsBuilder<H> {
    /// The kind of session to create.
    pub session_type: Option<SessionType>,
    /// The in-game name of the local player.
    pub player_name: Option<String>,
    /// The transport selected to carry session traffic.
    pub service_provider: Option<DPGUIDOrNamed>,
    /// The callback handler that receives relayed runtime messages.
    pub service_provider_handler: Option<H>,
    /// The application to start.
    pub application: Option<Guid>,
    /// The compound address, in insertion order.
    pub address: Vec<DPAddressPart>,
    /// An optional session name.
    pub session_name: Option<String>,
    /// An optional session password.
    pub session_password: Option<String>,
    /// An optional working directory for the external process.
    pub cwd: Option<String>,
}

/// A fully validated, immutable description of one launch. Constructed only
/// via [`DPRunOptionsBuilder::finish`].
pub struct DPRunOptions<H> {
    /// The kind of session to create.
    pub session_type: SessionType,
    /// The in-game name of the local player.
    pub player_name: String,
    /// The transport selected to carry session traffic.
    pub service_provider: DPGUIDOrNamed,
    /// The callback handler that receives relayed runtime messages, if any.
    pub service_provider_handler: Option<H>,
    /// The application to start.
    pub application: Guid,
    /// The compound address, in insertion order.
    pub address: Vec<DPAddressPart>,
    /// An optional session name.
    pub session_name: Option<String>,
    /// An optional session password.
    pub session_password: Option<String>,
    /// An optional working directory for the external process.
    pub cwd: Option<String>,
}

impl<H> DPRunOptions<H> {
    /// Creates an empty builder.
    pub fn builder() -> (b: DPRunOptionsBuilder<H>)
        ensures
            b.session_type is None,
            b.player_name is None,
            b.service_provider is None,
            b.service_provider_handler is None,
            b.application is None,
            b.address@ == Seq::<DPAddressPart>::empty(),
            b.session_name is None,
            b.session_password is None,
            b.cwd is None,
    {
        DPRunOptionsBuilder {
            session_type: None,
            player_name: None,
            service_provider: None,
            service_provider_handler: None,
            application: None,
            address: Vec::new(),
            session_name: None,
            session_password: None,
            cwd: None,
        }
    }

    /// Whether this launch carries a callback handler, and with it a
    /// callback server to run beside the external process.
    pub fn has_handler(&self) -> (r: bool)
        ensures
            r == (self.service_provider_handler is Some),
    {
        self.service_provider_handler.is_some()
    }

    /// The port the callback server should listen on, when a callback
    /// handler is present: decided by the first address part keyed by the
    /// port type — the low 16 bits of its numeric value, or the default port
    /// 2197 when that part carries no number. `None` when no handler is
    /// registered or no part is keyed by the port type.
    pub fn host_server_port(&self) -> (r: Option<u16>)
        ensures
            self.service_provider_handler is Some ==> r == find_port(self.address@),
            self.service_provider_handler is None ==> r is None,
    {
        if self.service_provider_handler.is_none() {
            return None;
        }
        proof {
            assert(self.address@.skip(0) =~= self.address@);
        }
        let mut i: usize = 0;
        while i < self.address.len()
            invariant
                self.service_provider_handler is Some,
                i <= self.address.len(),
                find_port(self.address@) == find_port(self.address@.skip(i as int)),
            decreases self.address.len() - i,
        {
            let part = &self.address[i];
            proof {
                assert(self.address@.skip(i as int)[0] == self.address@[i as int]);
            }
            if check_port_key(&part.data_type) {
                match &part.value {
                    DPAddressValue::Number(n) => {
                        let wide: u64 = ((*n as i64) + 0x1_0000_0000) as u64;
                        let low: u64 = wide % 0x1_0000;
                        proof {
                            assert(low == low16(*n as int));
                        }
                        return Some(low as u16);
                    },
                    _ => {
                        return Some(2197);
                    },
                }
            }
            proof {
                assert(self.address@.skip(i as int).drop_first() =~= self.address@.skip(
                    i as int + 1,
                ));
            }
            i = i + 1;
        }
        None
    }
}

impl<H> DPRunOptionsBuilder<H> {
    /// All four required fields are set.
    pub open spec fn complete(&self) -> bool {
        &&& self.session_type is Some
        &&& self.player_name is Some
        &&& self.service_provider is Some
        &&& self.application is Some
    }

    /// The chosen provider resolves to the loopback provider while no
    /// callback handler was registered.
    pub open spec fn loopback_without_handler(&self) -> bool {
        &&& self.service_provider is Some
        &&& is_loopback_provider(self.service_provider->0)
        &&& self.service_provider_handler is None
    }

    /// Host a session, optionally under a fixed session identifier; if none
    /// is given the external tool generates one.
    pub fn host(self, session_id: Option<Guid>) -> (r: Self)
        ensures
            r == (DPRunOptionsBuilder { session_type: Some(SessionType::Host(session_id)), ..self }),
    {
        DPRunOptionsBuilder { session_type: Some(SessionType::Host(session_id)), ..self }
    }

    /// Join the session with the given identifier.
    pub fn join(self, session_id: Guid) -> (r: Self)
        ensures
            r == (DPRunOptionsBuilder { session_type: Some(SessionType::Join(session_id)), ..self }),
    {
        DPRunOptionsBuilder { session_type: Some(SessionType::Join(session_id)), ..self }
    }

    /// Sets the in-game name of the local player.
    pub fn player_name(self, player_name: String) -> (r: Self)
        ensures
            r == (DPRunOptionsBuilder { player_name: Some(player_name), ..self }),
    {
        DPRunOptionsBuilder { player_name: Some(player_name), ..self }
    }

    /// Selects the service provider by identifier. Overwrites any earlier
    /// provider choice.
    pub fn service_provider(self, service_provider: Guid) -> (r: Self)
        ensures
            r == (DPRunOptionsBuilder {
                service_provider: Some(DPGUIDOrNamed::GUID(service_provider)),
                ..self
            }),
    {
        DPRunOptionsBuilder {
            service_provider: Some(DPGUIDOrNamed::GUID(service_provider)),
            ..self
        }
    }

    /// Selects the service provider by alias name. Overwrites any earlier
    /// provider choice.
    pub fn named_service_provider(self, service_provider: &str) -> (r: Self)
        ensures
            r.service_provider matches Some(p) && p matches DPGUIDOrNamed::Named(s) && s@
                == service_provider@,
            r.session_type == self.session_type,
            r.player_name == self.player_name,
            r.service_provider_handler == self.service_provider_handler,
            r.application == self.application,
            r.address == self.address,
            r.session_name == self.session_name,
            r.session_password == self.session_password,
            r.cwd == self.cwd,
    {
        DPRunOptionsBuilder {
            service_provider: Some(DPGUIDOrNamed::Named(String::from_str(service_provider))),
            ..self
        }
    }

    /// Registers a callback handler for relayed runtime messages. If no
    /// provider has been chosen yet, this implicitly selects the loopback
    /// provider alias.
    pub fn service_provider_handler(self, service_provider: H) -> (r: Self)
        ensures
            r.service_provider_handler == Some(service_provider),
            self.service_provider is Some ==> r.service_provider == self.service_provider,
            self.service_provider is None ==> (r.service_provider matches Some(p) && p matches
                DPGUIDOrNamed::Named(s) && s@ == "DPRUN"@),
            r.session_type == self.session_type,
            r.player_name == self.player_name,
            r.application == self.application,
            r.address == self.address,
            r.session_name == self.session_name,
            r.session_password == self.session_password,
            r.cwd == self.cwd,
    {
        let with_provider = if self.service_provider.is_none() {
            self.named_service_provider("DPRUN")
        } else {
            self
        };
        DPRunOptionsBuilder { service_provider_handler: Some(service_provider), ..with_provider }
    }

    /// Sets the application to start.
    pub fn application(self, application: Guid) -> (r: Self)
        ensures
            r == (DPRunOptionsBuilder { application: Some(application), ..self }),
    {
        DPRunOptionsBuilder { application: Some(application), ..self }
    }

    /// Sets the optional session name.
    pub fn session_name(self, session_name: String) -> (r: Self)
        ensures
            r == (DPRunOptionsBuilder { session_name: Some(session_name), ..self }),
    {
        DPRunOptionsBuilder { session_name: Some(session_name), ..self }
    }

    /// Password-protects the session.
    pub fn session_password(self, session_password: String) -> (r: Self)
        ensures
            r == (DPRunOptionsBuilder { session_password: Some(session_password), ..self }),
    {
        DPRunOptionsBuilder { session_password: Some(session_password), ..self }
    }

    /// Sets the working directory for the external process; defaults to the
    /// caller's current directory when absent.
    pub fn cwd(self, cwd: String) -> (r: Self)
        ensures
            r == (DPRunOptionsBuilder { cwd: Some(cwd), ..self }),
    {
        DPRunOptionsBuilder { cwd: Some(cwd), ..self }
    }

    /// Appends an address part keyed by identifier. Parts keep their
    /// insertion order.
    pub fn address_part(self, data_type: Guid, value: DPAddressValue) -> (r: Self)
        ensures
            r.address@ == self.address@.push(
                DPAddressPart { data_type: DPGUIDOrNamed::GUID(data_type), value },
            ),
            r.session_type == self.session_type,
            r.player_name == self.player_name,
            r.service_provider == self.service_provider,
            r.service_provider_handler == self.service_provider_handler,
            r.application == self.application,
            r.session_name == self.session_name,
            r.session_password == self.session_password,
            r.cwd == self.cwd,
    {
        let mut this = self;
        this.address.push(DPAddressPart { data_type: DPGUIDOrNamed::GUID(data_type), value });
        this
    }

    /// Appends an address part keyed by alias name. Parts keep their
    /// insertion order.
    pub fn named_address_part(self, data_type: &str, value: DPAddressValue) -> (r: Self)
        ensures
            r.address@.len() == self.address@.len() + 1,
            r.address@.subrange(0, self.address@.len() as int) == self.address@,
            r.address@.last().data_type matches DPGUIDOrNamed::Named(s) && s@ == data_type@,
            r.address@.last().value == value,
            r.session_type == self.session_type,
            r.player_name == self.player_name,
            r.service_provider == self.service_provider,
            r.service_provider_handler == self.service_provider_handler,
            r.application == self.application,
            r.session_name == self.session_name,
            r.session_password == self.session_password,
            r.cwd == self.cwd,
    {
        let mut this = self;
        this.address.push(
            DPAddressPart {
                data_type: DPGUIDOrNamed::Named(String::from_str(data_type)),
                value,
            },
        );
        proof {
            assert(this.address@.subrange(0, this.address@.len() - 1) =~= self.address@);
        }
        this
    }

    /// Checks the accumulated fields and produces the validated options.
    ///
    /// Fails if any required field (session type, player name, provider,
    /// application) is missing, or if the chosen provider resolves to the
    /// loopback provider while no callback handler was registered: the
    /// loopback provider is meaningless without a handler to receive its
    /// relayed messages.
    pub fn finish(self) -> (r: Result<DPRunOptions<H>, BuildError>)
        ensures
            match r {
                Ok(o) => {
                    &&& self.complete()
                    &&& !self.loopback_without_handler()
                    &&& Some(o.session_type) == self.session_type
                    &&& Some(o.player_name) == self.player_name
                    &&& Some(o.service_provider) == self.service_provider
                    &&& o.service_provider_handler == self.service_provider_handler
                    &&& Some(o.application) == self.application
                    &&& o.address == self.address
                    &&& o.session_name == self.session_name
                    &&& o.session_password == self.session_password
                    &&& o.cwd == self.cwd
                },
                Err(e) => match e {
                    BuildError::MissingSessionType => self.session_type is None,
                    BuildError::MissingPlayerName => self.session_type is Some
                        && self.player_name is None,
                    BuildError::MissingServiceProvider => self.session_type is Some
                        && self.player_name is Some && self.service_provider is None,
                    BuildError::MissingApplication => self.session_type is Some
                        && self.player_name is Some && self.service_provider is Some
                        && self.application is None,
                    BuildError::LoopbackWithoutHandler => self.complete()
                        && self.loopback_without_handler(),
                },
            },
    {
        let DPRunOptionsBuilder {
            session_type,
            player_name,
            service_provider,
            service_provider_handler,
            application,
            address,
            session_name,
            session_password,
            cwd,
        } = self;
        let session_type = match session_type {
            Some(t) => t,
            None => { return Err(BuildError::MissingSessionType) },
        };
        let player_name = match player_name {
            Some(n) => n,
            None => { return Err(BuildError::MissingPlayerName) },
        };
        let service_provider = match service_provider {
            Some(p) => p,
            None => { return Err(BuildError::MissingServiceProvider) },
        };
        let application = match application {
            Some(a) => a,
            None => { return Err(BuildError::MissingApplication) },
        };
        if check_loopback_provider(&service_provider) && service_provider_handler.is_none() {
            return Err(BuildError::LoopbackWithoutHandler);
        }
        Ok(
            DPRunOptions {
                session_type,
                player_name,
                service_provider,
                service_provider_handler,
                application,
                address,
                session_name,
                session_password,
                cwd,
            },
        )
    }
}

} // verus!
