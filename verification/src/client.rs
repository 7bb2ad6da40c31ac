//! The resolution orchestrator: the session manager's state, the engine's
//! possible answers to a metadata-only submission, and the state machine that
//! turns an info-hash into torrent metadata or one of three precise errors.
//!
//! The torrent engine itself performs network discovery and is driven outside
//! this library; these functions decide what is submitted to it and how each
//! of its answers is classified.

use vstd::prelude::*;

use crate::info_hash::{magnet_uri_of, InfoHash};

verus! {

/// Why a magnet resolution failed.
#[derive(Clone, Copy, Debug, PartialEq, Eq, Structural)]
pub enum ResolveMagnetError {
    /// The torrent engine session was never started: every resolution fails
    /// fast until the operator restarts the process with a working session.
    NoSession,
    /// The engine unexpectedly began downloading content instead of stopping
    /// at metadata: a policy violation, never silently allowed to proceed.
    AddedForDownloading,
    /// The engine rejected the identifier or could not fetch the metadata.
    NotAdded,
}

/// The slice of the engine's metadata that this service reads: the torrent's
/// declared name, as raw bytes straight from the swarm (possibly absent,
/// possibly not valid text).
#[derive(Debug)]
pub struct TorrentInfo {
    pub name: Option<Vec<u8>>,
}

impl TorrentInfo {
    /// The declared name as an optional byte sequence.
    pub open spec fn name_view(&self) -> Option<Seq<u8>> {
        match self.name {
            Some(ref n) => Some(n@),
            None => None,
        }
    }
}

/// One answer of the torrent engine to a list-only submission, together with
/// the case in which the submission itself failed.
pub enum EngineEvent {
    /// The engine already manages this torrent and handed back its cached
    /// metadata and raw `.torrent` bytes.
    AlreadyManaged(TorrentInfo, Vec<u8>),
    /// The common success: the engine fetched the metadata and stopped short
    /// of downloading content, as asked.
    ListOnly(TorrentInfo, Vec<u8>),
    /// The engine began a full content download despite the list-only flag.
    AddedForDownload,
    /// The submission itself failed (identifier rejected, transport failure).
    SubmitFailed,
}

/// An inclusive-exclusive range of ports the engine may listen on.
#[derive(Clone, Copy, Debug, PartialEq, Eq, Structural)]
pub struct PortRange {
    pub start: u16,
    pub end: u16,
}

/// The engine settings the session manager starts a session with.
pub struct ClientConfig {
    /// Directory for the engine's internal scratch state.
    pub session_output_dir: String,
    /// Optional range of ports for inbound engine connections.
    pub listen_port_range: Option<PortRange>,
}

/// The session manager: it owns the lifecycle of the single process-wide
/// engine session. The session handle itself lives with the engine; this
/// state records whether one was ever started, and with which settings.
pub struct Client {
    /// Whether the engine session was started successfully.
    pub session_started: bool,
    /// Directory for the engine's internal scratch state.
    pub output_dir: String,
    /// Optional range of ports for inbound engine connections.
    pub listen_port_range: Option<PortRange>,
}

/// The next move of a resolution: submit this magnet identifier to the engine
/// in list-only mode, or fail fast without touching the engine.
pub enum ResolveStep {
    Submit(String),
    Fail(ResolveMagnetError),
}

impl Client {
    /// A fresh session manager: no session yet, settings taken verbatim.
    pub fn new(config: ClientConfig) -> (c: Client)
        ensures
            !c.session_started,
            c.output_dir == config.session_output_dir,
            c.listen_port_range == config.listen_port_range,
    {
        Client { session_started: false, output_dir: config.session_output_dir, listen_port_range: config.listen_port_range }
    }

    /// Records that the one engine session came up. Initialization happens at
    /// most once, so this is only taken from the sessionless state.
    pub fn mark_session_started(&mut self)
        requires
            !old(self).session_started,
        ensures
            final(self).session_started,
            final(self).output_dir == old(self).output_dir,
            final(self).listen_port_range == old(self).listen_port_range,
    {
        self.session_started = true;
    }

    /// The first step of a resolution: without a session it fails fast with
    /// `NoSession`; with one it asks for exactly the magnet identifier of the
    /// given hash to be submitted in list-only mode.
    pub fn begin_resolve(&self, hash: &InfoHash) -> (step: ResolveStep)
        ensures
            self.session_started ==> (step matches ResolveStep::Submit(m) && m@ == magnet_uri_of(
                hash@,
            )),
            !self.session_started ==> step == ResolveStep::Fail(ResolveMagnetError::NoSession),
    {
        if self.session_started {
            ResolveStep::Submit(hash.magnet_link())
        } else {
            ResolveStep::Fail(ResolveMagnetError::NoSession)
        }
    }
}

/// Classifies the engine's answer: both "already managed" and "list-only" are
/// success and hand the metadata through unchanged; a torrent added for full
/// download is the policy violation `AddedForDownloading`; a failed submission
/// is `NotAdded`.
pub fn classify_engine_event(event: EngineEvent) -> (r: Result<
    (TorrentInfo, Vec<u8>),
    ResolveMagnetError,
>)
    ensures
        r is Ok <==> (event is AlreadyManaged || event is ListOnly),
        event matches EngineEvent::AlreadyManaged(info, content) ==> r->Ok_0 == (info, content),
        event matches EngineEvent::ListOnly(info, content) ==> r->Ok_0 == (info, content),
        event is AddedForDownload ==> r->Err_0 == ResolveMagnetError::AddedForDownloading,
        event is SubmitFailed ==> r->Err_0 == ResolveMagnetError::NotAdded,
{
    match event {
        EngineEvent::AlreadyManaged(info, content) => Ok((info, content)),
        EngineEvent::ListOnly(info, content) => Ok((info, content)),
        EngineEvent::AddedForDownload => Err(ResolveMagnetError::AddedForDownloading),
        EngineEvent::SubmitFailed => Err(ResolveMagnetError::NotAdded),
    }
}

} // verus!
