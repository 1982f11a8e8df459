//! The connector: how a TLS session to a target host is configured.

use vstd::prelude::*;
use openssl::error::ErrorStack;
use openssl::ssl::{
    ConnectConfiguration, Ssl, SslConnector, SslConnectorBuilder, SslMethod, SslVerifyMode,
    SslVersion,
};
use crate::error::{timeout_message, unresolved_message, CertificateError, ErrorKind};
use crate::target::{address_of, TargetHost};

verus! {

/// The errors that the TLS library collected: carried through unread and
/// rendered as text only.
#[verifier::external_type_specification]
#[verifier::external_body]
pub struct ExErrorStack(ErrorStack);

/// The TLS library's builder of client connectors: carried through unread.
#[verifier::external_type_specification]
#[verifier::external_body]
pub struct ExSslConnectorBuilder(SslConnectorBuilder);

/// The TLS library's client connector: carried through unread.
#[verifier::external_type_specification]
#[verifier::external_body]
pub struct ExSslConnector(SslConnector);

/// The TLS library's configuration of one session: carried through unread.
#[verifier::external_type_specification]
#[verifier::external_body]
pub struct ExConnectConfiguration(ConnectConfiguration);

/// The TLS library's state of one session: carried through unread.
#[verifier::external_type_specification]
#[verifier::external_body]
pub struct ExSsl(Ssl);

/// A version of the TLS protocol.
#[derive(Clone, Copy, Debug, PartialEq, Eq, Structural)]
pub enum ProtocolVersion {
    Tls10,
    Tls11,
    Tls12,
    Tls13,
}

/// How the client side of a TLS session is set up before the handshake.
#[derive(Clone, Copy, Debug, PartialEq, Eq, Structural)]
pub struct ConnectorConfig {
    /// Whether the host name is sent in the Server Name Indication extension.
    pub server_name_indication: bool,
    /// The oldest protocol version the client accepts.
    pub minimum_protocol: ProtocolVersion,
    /// Whether the server's certificate chain is verified against a trust store.
    pub verify_chain: bool,
    /// The number of seconds after which a handshake is abandoned.
    pub handshake_timeout_secs: u64,
}

impl ConnectorConfig {
    /// The configuration for inspecting a certificate: the name is indicated,
    /// TLS 1.2 is the floor, the chain is not verified, so that untrusted and
    /// self-signed endpoints can be inspected, and the handshake is bounded
    /// by ten seconds.
    pub open spec fn spec_inspection() -> ConnectorConfig {
        ConnectorConfig {
            server_name_indication: true,
            minimum_protocol: ProtocolVersion::Tls12,
            verify_chain: false,
            handshake_timeout_secs: 10,
        }
    }

    /// Returns the configuration for inspecting a certificate.
    pub fn inspection() -> (config: ConnectorConfig)
        ensures
            config == Self::spec_inspection(),
    {
        ConnectorConfig {
            server_name_indication: true,
            minimum_protocol: ProtocolVersion::Tls12,
            verify_chain: false,
            handshake_timeout_secs: 10,
        }
    }
}

/// What a builder of connectors has been set to: the protocol floor, if one
/// was set, and whether the server's chain is verified.
pub uninterp spec fn builder_setup(builder: SslConnectorBuilder) -> (Option<ProtocolVersion>, bool);

/// What a connector was built with: the protocol floor, if one was set, and
/// whether the server's chain is verified.
pub uninterp spec fn connector_setup(connector: SslConnector) -> (Option<ProtocolVersion>, bool);

/// What the configuration of one session holds: the floor and the
/// verification of its connector, and whether the host name is to be
/// indicated to the server.
pub uninterp spec fn configuration_setup(session: ConnectConfiguration) -> (
    Option<ProtocolVersion>,
    bool,
    bool,
);

/// What a session was set up with: the protocol floor, whether the server's
/// chain is verified, and the name that it indicates to the server, if it
/// indicates one.
pub uninterp spec fn session_setup(ssl: Ssl) -> (Option<ProtocolVersion>, bool, Option<Seq<char>>);

/// Whether the TLS library reads a name as an IP address. Such a name is
/// never indicated to the server.
pub uninterp spec fn reads_as_address(name: Seq<char>) -> bool;

/// Whether a character can stand in the text of an IP address: a hexadecimal
/// digit, a dot or a colon.
pub open spec fn address_char(c: char) -> bool {
    ||| '0' <= c <= '9'
    ||| 'a' <= c <= 'f'
    ||| 'A' <= c <= 'F'
    ||| c == '.'
    ||| c == ':'
}

/// Whether a name holds a character that no IP address holds, so that it
/// cannot be read as one.
pub open spec fn cannot_be_address(name: Seq<char>) -> bool {
    exists|i: int| 0 <= i < name.len() && !address_char(#[trigger] name[i])
}

/// The name that a session for `name` indicates to the server: none where
/// indication is off; the name itself where it is on and the name is no IP
/// address, which is plain of every name that holds a character that no
/// address holds; and none for an IP address.
pub open spec fn indicated_name(indicate: bool, name: Seq<char>) -> Option<Seq<char>> {
    if !indicate {
        None
    } else if cannot_be_address(name) {
        Some(name)
    } else if reads_as_address(name) {
        None
    } else {
        Some(name)
    }
}

/// The text that the TLS library gives for its errors.
pub uninterp spec fn error_text(error: ErrorStack) -> Seq<char>;

/// Calls `SslConnector::builder` for the method that supports every TLS
/// version. Whether it succeeds depends on the TLS library's state and on
/// the machine: nothing is claimed of the builder it returns.
#[verifier::external_body]
fn connector_builder() -> (res: Result<SslConnectorBuilder, ErrorStack>) {
    SslConnector::builder(SslMethod::tls())
}

/// Calls `SslContextBuilder::set_min_proto_version` with `floor` written as
/// the TLS library's own constant for that version. Where the call succeeds
/// the builder's floor is `floor`, and its verification is as before.
#[verifier::external_body]
fn set_minimum_protocol(builder: &mut SslConnectorBuilder, floor: ProtocolVersion) -> (res: Result<
    (),
    ErrorStack,
>)
    ensures
        res is Ok ==> builder_setup(*final(builder)) == (
            Some(floor),
            builder_setup(*old(builder)).1,
        ),
{
    let version = match floor {
        ProtocolVersion::Tls10 => SslVersion::TLS1,
        ProtocolVersion::Tls11 => SslVersion::TLS1_1,
        ProtocolVersion::Tls12 => SslVersion::TLS1_2,
        ProtocolVersion::Tls13 => SslVersion::TLS1_3,
    };
    builder.set_min_proto_version(Some(version))
}

/// Calls `SslContextBuilder::set_verify` with `verify_chain` written as the
/// TLS library's own mode: `SslVerifyMode::PEER` for true, `SslVerifyMode::NONE`
/// for false. Afterwards the builder's verification is `verify_chain`, and
/// its floor is as before.
#[verifier::external_body]
fn set_chain_verification(builder: &mut SslConnectorBuilder, verify_chain: bool)
    ensures
        builder_setup(*final(builder)) == (builder_setup(*old(builder)).0, verify_chain),
{
    builder.set_verify(if verify_chain { SslVerifyMode::PEER } else { SslVerifyMode::NONE })
}

/// Calls `SslConnectorBuilder::build`. The connector has what the builder
/// was set to.
#[verifier::external_body]
fn build_connector(builder: SslConnectorBuilder) -> (connector: SslConnector)
    ensures
        connector_setup(connector) == builder_setup(builder),
{
    builder.build()
}

/// Calls `SslConnector::configure`, which prepares one session from the
/// connector's context. The session has the connector's floor and
/// verification, and indicates the host name until told otherwise.
#[verifier::external_body]
fn configure_session(connector: &SslConnector) -> (res: Result<ConnectConfiguration, ErrorStack>)
    ensures
        res matches Ok(session) ==> configuration_setup(session) == (
            connector_setup(*connector).0,
            connector_setup(*connector).1,
            true,
        ),
{
    connector.configure()
}

/// Calls `ConnectConfiguration::use_server_name_indication`, which sets
/// whether the host name is to be indicated and leaves the rest as it was.
#[verifier::external_body]
fn indicate_server_name(session: ConnectConfiguration, indicate: bool) -> (configured:
    ConnectConfiguration)
    ensures
        configuration_setup(configured) == (
            configuration_setup(session).0,
            configuration_setup(session).1,
            indicate,
        ),
{
    session.use_server_name_indication(indicate)
}

/// Calls `ConnectConfiguration::into_ssl`, which panics on a name with a NUL
/// character: such names are left out. Where the call succeeds, the session
/// has the floor and the verification that the configuration held. It
/// indicates `name` to the server if and only if the configuration says so
/// and `name` does not parse as an IP address; a name that holds a character
/// other than hexadecimal digits, dots and colons never does.
#[verifier::external_body]
fn session_for(session: ConnectConfiguration, name: &str) -> (res: Result<Ssl, ErrorStack>)
    requires
        !name@.contains('\0'),
    ensures
        res matches Ok(ssl) ==> session_setup(ssl) == (
            configuration_setup(session).0,
            configuration_setup(session).1,
            if !configuration_setup(session).2 {
                None::<Seq<char>>
            } else if cannot_be_address(name@) {
                Some(name@)
            } else if reads_as_address(name@) {
                None::<Seq<char>>
            } else {
                Some(name@)
            },
        ),
{
    session.into_ssl(name)
}

/// Renders an error of the TLS library through its `Display` impl. The
/// contract gives the text its name: it depends on the error alone.
#[verifier::external_body]
fn describe(error: &ErrorStack) -> (text: String)
    ensures
        text@ == error_text(*error),
{
    error.to_string()
}

/// Turns an error of the TLS library into a handshake failure that carries
/// the library's text.
fn handshake_failure(error: &ErrorStack) -> (failure: CertificateError)
    ensures
        failure.kind == ErrorKind::Handshake,
        failure.detail@ == error_text(*error),
{
    CertificateError { kind: ErrorKind::Handshake, detail: describe(error) }
}

/// Prepares the client side of one TLS session to `host` as `config` asks:
/// the protocol floor and the verification mode are set on a fresh
/// connector, and the session is made for the host name. Whether the TLS
/// library can make a connector is for it to say. A session that is returned
/// was set up with exactly the floor and the verification of `config`. It
/// indicates the host's name to the server if and only if `config` asks for
/// indication and the name is no IP address: an IP address is never
/// indicated. Whatever the TLS library refuses is reported as a handshake
/// failure with the library's text.
pub fn client_session(config: &ConnectorConfig, host: &TargetHost) -> (res: Result<
    Ssl,
    CertificateError,
>)
    ensures
        res matches Ok(ssl) ==> session_setup(ssl) == (
            Some(config.minimum_protocol),
            config.verify_chain,
            indicated_name(config.server_name_indication, host@),
        ),
        res matches Err(error) ==> error.kind == ErrorKind::Handshake && exists|
            cause: ErrorStack,
        | error.detail@ == #[trigger] error_text(cause),
{
    let mut builder = match connector_builder() {
        Ok(builder) => builder,
        Err(error) => {
            return Err(handshake_failure(&error));
        },
    };
    match set_minimum_protocol(&mut builder, config.minimum_protocol) {
        Ok(()) => {},
        Err(error) => {
            return Err(handshake_failure(&error));
        },
    }
    set_chain_verification(&mut builder, config.verify_chain);
    let connector = build_connector(builder);
    let session = match configure_session(&connector) {
        Ok(session) => session,
        Err(error) => {
            return Err(handshake_failure(&error));
        },
    };
    let session = indicate_server_name(session, config.server_name_indication);
    match session_for(session, host.name()) {
        Ok(ssl) => Ok(ssl),
        Err(error) => Err(handshake_failure(&error)),
    }
}

/// Where one attempt to open a session stands. `Established` and `Failed` are
/// final: nothing is retried.
#[derive(Clone, Copy, Debug, PartialEq, Eq, Structural)]
pub enum Stage {
    /// The host name is being resolved.
    Resolving,
    /// A TCP connection to the first resolved address is being opened.
    Connecting,
    /// The TLS handshake is under way, under its time bound.
    Handshaking,
    /// The handshake completed: the session can be asked for the certificate.
    Established,
    /// The attempt ended in a failure.
    Failed,
}

/// What the network reported in answer to the action last asked for.
#[derive(Debug)]
pub enum Event {
    /// Resolution returned, with this number of addresses.
    Resolved { addresses: usize },
    /// Resolution failed.
    ResolutionFailed { detail: String },
    /// The TCP connection is open.
    Connected,
    /// The TCP connection could not be opened.
    ConnectFailed { detail: String },
    /// The handshake completed within its bound.
    HandshakeCompleted,
    /// The TLS negotiation failed.
    HandshakeFailed { detail: String },
    /// The handshake did not complete within its bound.
    HandshakeTimedOut,
}

/// What the caller is to do next.
#[derive(Debug)]
pub enum Action {
    /// Resolve this address.
    Resolve { address: String },
    /// Open a TCP connection to the resolved address at this position.
    Connect { index: usize },
    /// Run the TLS handshake and abandon it after this many seconds.
    Handshake { timeout_secs: u64 },
    /// The session is established: take the certificate from it.
    Finish,
    /// Give up and report this failure.
    Fail { error: CertificateError },
    /// The event does not answer the pending action: nothing changes.
    Ignore,
}

/// The stage that follows `stage` on `event`. An event that does not answer
/// the action pending in `stage` changes nothing.
pub open spec fn next_stage(stage: Stage, event: Event) -> Stage {
    match (stage, event) {
        (Stage::Resolving, Event::Resolved { addresses }) => if addresses > 0 {
            Stage::Connecting
        } else {
            Stage::Failed
        },
        (Stage::Resolving, Event::ResolutionFailed { .. }) => Stage::Failed,
        (Stage::Connecting, Event::Connected) => Stage::Handshaking,
        (Stage::Connecting, Event::ConnectFailed { .. }) => Stage::Failed,
        (Stage::Handshaking, Event::HandshakeCompleted) => Stage::Established,
        (Stage::Handshaking, Event::HandshakeFailed { .. }) => Stage::Failed,
        (Stage::Handshaking, Event::HandshakeTimedOut) => Stage::Failed,
        _ => stage,
    }
}

/// The failure, as kind and message, with which `event` ends an attempt that
/// stands in `stage`, if it ends it.
pub open spec fn failure(stage: Stage, event: Event) -> Option<(ErrorKind, Seq<char>)> {
    match (stage, event) {
        (Stage::Resolving, Event::Resolved { addresses }) => if addresses > 0 {
            None
        } else {
            Some((ErrorKind::Resolution, unresolved_message()))
        },
        (Stage::Resolving, Event::ResolutionFailed { detail }) => Some(
            (ErrorKind::Resolution, detail@),
        ),
        (Stage::Connecting, Event::ConnectFailed { detail }) => Some((ErrorKind::Connect, detail@)),
        (Stage::Handshaking, Event::HandshakeFailed { detail }) => Some(
            (ErrorKind::Handshake, detail@),
        ),
        (Stage::Handshaking, Event::HandshakeTimedOut) => Some(
            (ErrorKind::Timeout, timeout_message()),
        ),
        _ => None,
    }
}

/// Whether `action` is what `event` calls for in `stage` under `config`: the
/// failure where the event ends the attempt, the next step where it advances
/// it, and nothing where it does not answer the pending action. Only the
/// first resolved address is ever connected to.
pub open spec fn answers(action: Action, stage: Stage, event: Event, config: ConnectorConfig) -> bool {
    let next = next_stage(stage, event);
    match failure(stage, event) {
        Some((kind, detail)) => action matches Action::Fail { error } && error.kind == kind
            && error.detail@ == detail,
        None => if next == stage {
            action is Ignore
        } else if next == Stage::Connecting {
            action matches Action::Connect { index } && index == 0
        } else if next == Stage::Handshaking {
            action matches Action::Handshake { timeout_secs } && timeout_secs
                == config.handshake_timeout_secs
        } else {
            action is Finish
        },
    }
}

/// Begins an attempt: the first action is to resolve the host's address.
pub fn start(host: &TargetHost) -> (first: (Stage, Action))
    ensures
        first.0 == Stage::Resolving,
        first.1 matches Action::Resolve { address } && address@ == address_of(host@),
{
    (Stage::Resolving, Action::Resolve { address: host.address() })
}

/// Decides, from the stage an attempt stands in and what the network
/// reported, the next stage and what the caller is to do.
pub fn step(stage: Stage, event: Event, config: &ConnectorConfig) -> (next: (Stage, Action))
    ensures
        next.0 == next_stage(stage, event),
        answers(next.1, stage, event, *config),
{
    match (stage, event) {
        (Stage::Resolving, Event::Resolved { addresses }) => {
            if addresses > 0 {
                (Stage::Connecting, Action::Connect { index: 0 })
            } else {
                let error = CertificateError::new(ErrorKind::Resolution, "Unable to resolve domain");
                (Stage::Failed, Action::Fail { error })
            }
        },
        (Stage::Resolving, Event::ResolutionFailed { detail }) => {
            let error = CertificateError { kind: ErrorKind::Resolution, detail };
            (Stage::Failed, Action::Fail { error })
        },
        (Stage::Connecting, Event::Connected) => {
            (Stage::Handshaking, Action::Handshake { timeout_secs: config.handshake_timeout_secs })
        },
        (Stage::Connecting, Event::ConnectFailed { detail }) => {
            let error = CertificateError { kind: ErrorKind::Connect, detail };
            (Stage::Failed, Action::Fail { error })
        },
        (Stage::Handshaking, Event::HandshakeCompleted) => (Stage::Established, Action::Finish),
        (Stage::Handshaking, Event::HandshakeFailed { detail }) => {
            let error = CertificateError { kind: ErrorKind::Handshake, detail };
            (Stage::Failed, Action::Fail { error })
        },
        (Stage::Handshaking, Event::HandshakeTimedOut) => {
            let error = CertificateError::new(ErrorKind::Timeout, "SSL handshake timed out");
            (Stage::Failed, Action::Fail { error })
        },
        (stage, _) => (stage, Action::Ignore),
    }
}

/// The stage in which an attempt that stands in `stage` ends up after the
/// events of `events`, taken in their order.
pub open spec fn run(stage: Stage, events: Seq<Event>) -> Stage
    decreases events.len(),
{
    if events.len() == 0 {
        stage
    } else {
        run(next_stage(stage, events[0]), events.drop_first())
    }
}

/// An attempt that has failed or is established stays so whatever is
/// reported afterwards: nothing is retried and nothing is undone.
pub proof fn lemma_final_stages_are_final(stage: Stage, events: Seq<Event>)
    requires
        stage == Stage::Failed || stage == Stage::Established,
    ensures
        run(stage, events) == stage,
    decreases events.len(),
{
    if events.len() > 0 {
        lemma_final_stages_are_final(stage, events.drop_first());
    }
}

/// A connection that is refused ends the attempt with a connect failure that
/// carries the reported message, and no later event changes that: no session
/// is established.
pub proof fn lemma_refused_connection_fails(detail: String, later: Seq<Event>)
    ensures
        failure(Stage::Connecting, Event::ConnectFailed { detail }) == Some(
            (ErrorKind::Connect, detail@),
        ),
        run(Stage::Connecting, seq![Event::ConnectFailed { detail }] + later) == Stage::Failed,
{
    let events = seq![Event::ConnectFailed { detail }] + later;
    assert(events[0] == Event::ConnectFailed { detail });
    assert(events.drop_first() =~= later);
    lemma_final_stages_are_final(Stage::Failed, later);
}

/// A handshake that exceeds its bound ends the attempt with a timeout
/// failure, and no later event changes that.
pub proof fn lemma_stalled_handshake_times_out(later: Seq<Event>)
    ensures
        failure(Stage::Handshaking, Event::HandshakeTimedOut) == Some(
            (ErrorKind::Timeout, timeout_message()),
        ),
        run(Stage::Handshaking, seq![Event::HandshakeTimedOut] + later) == Stage::Failed,
{
    let events = seq![Event::HandshakeTimedOut] + later;
    assert(events[0] == Event::HandshakeTimedOut);
    assert(events.drop_first() =~= later);
    lemma_final_stages_are_final(Stage::Failed, later);
}

/// How far an attempt has come: the number of steps that lie behind it.
pub open spec fn progress(stage: Stage) -> int {
    match stage {
        Stage::Resolving => 0,
        Stage::Connecting => 1,
        Stage::Handshaking => 2,
        Stage::Established => 3,
        Stage::Failed => 0,
    }
}

/// A session is established only after resolution, connection and handshake
/// have each succeeded: an attempt that begins with resolution cannot be
/// established by fewer than three events.
pub proof fn lemma_no_stage_is_skipped(stage: Stage, events: Seq<Event>)
    requires
        run(stage, events) == Stage::Established,
    ensures
        progress(stage) + events.len() >= 3,
        stage != Stage::Failed,
    decreases events.len(),
{
    if events.len() > 0 {
        lemma_no_stage_is_skipped(next_stage(stage, events[0]), events.drop_first());
    }
}

} // verus!
