//! The install pipeline, as a verified state machine.
//!
//! The pipeline decides every step of an install; the unverified driver
//! performs the I/O.  The driver carries out each [`Action`] the pipeline
//! hands it and reports the outcome back as an [`Event`]; the next action
//! follows from the current state and that event alone.  Decompression is
//! the one piece of real computation in the middle of the pipeline, and it
//! happens inside [`Pipeline::step`], in verified code.
//!
//! The transition relation is the spec function [`next`]; a run over a whole
//! sequence of events is the spec function [`run`].  The lemmas at the bottom
//! pin down the failure behaviour: a failed pipeline accepts no further
//! event, and no write to disk is ever requested until a well-formed archive
//! has actually been downloaded.

use crate::errors::InstallError;
use crate::gzip::decompress;
use crate::gzip::gunzip;
use crate::paths::archive_file;
use crate::paths::archive_file_of;
use crate::paths::install_dir;
use crate::paths::install_dir_of;
use crate::url::build_url;
use crate::url::url_of;
use vstd::prelude::*;

verus! {

/// The outcome of one action, reported by the driver.
#[derive(Debug)]
pub enum Event {
    /// The user's home directory was found.
    HomeFound { home: String },
    /// The user's home directory could not be discovered.
    HomeMissing,
    /// The install directory exists (it was created, or was already there).
    DirReady,
    /// The install directory could not be created.
    DirError,
    /// The server answered with `status` and the response body.
    Response { status: u16, body: Vec<u8> },
    /// The download request could not be completed at all.
    ConnectionFailed,
    /// The archive file was written.
    FileWritten,
    /// The archive file could not be written.
    FileError,
    /// The archive was unpacked into the install directory.
    Unpacked,
    /// The archive could not be unpacked.
    UnpackError,
}

/// What an [`Event`] means: the same outcomes over mathematical values.
pub enum EventModel {
    HomeFound { home: Seq<char> },
    HomeMissing,
    DirReady,
    DirError,
    Response { status: u16, body: Seq<u8> },
    ConnectionFailed,
    FileWritten,
    FileError,
    Unpacked,
    UnpackError,
}

impl View for Event {
    type V = EventModel;

    open spec fn view(&self) -> EventModel {
        match self {
            Event::HomeFound { home } => EventModel::HomeFound { home: home@ },
            Event::HomeMissing => EventModel::HomeMissing,
            Event::DirReady => EventModel::DirReady,
            Event::DirError => EventModel::DirError,
            Event::Response { status, body } => EventModel::Response {
                status: *status,
                body: body@,
            },
            Event::ConnectionFailed => EventModel::ConnectionFailed,
            Event::FileWritten => EventModel::FileWritten,
            Event::FileError => EventModel::FileError,
            Event::Unpacked => EventModel::Unpacked,
            Event::UnpackError => EventModel::UnpackError,
        }
    }
}

/// What the driver is asked to do next.
#[derive(Debug)]
pub enum Action {
    /// Discover the user's home directory.
    FindHome,
    /// Make sure the install directory exists, creating missing ancestors.
    EnsureDir { dir: String },
    /// Download the archive at `url` and report status and body.
    Download { url: String },
    /// Write the decompressed archive container to the file `file`.
    WriteArchive { file: String, data: Vec<u8> },
    /// Unpack the archive container at `file` into the directory `dir`.
    Unpack { file: String, dir: String },
    /// The install failed; report `error` and stop.
    Fail { error: InstallError },
    /// The install succeeded; stop.
    Succeed,
}

/// What an [`Action`] means: the same requests over mathematical values.
pub enum ActionModel {
    FindHome,
    EnsureDir { dir: Seq<char> },
    Download { url: Seq<char> },
    WriteArchive { file: Seq<char>, data: Seq<u8> },
    Unpack { file: Seq<char>, dir: Seq<char> },
    Fail { error: InstallError },
    Succeed,
}

impl View for Action {
    type V = ActionModel;

    open spec fn view(&self) -> ActionModel {
        match self {
            Action::FindHome => ActionModel::FindHome,
            Action::EnsureDir { dir } => ActionModel::EnsureDir { dir: dir@ },
            Action::Download { url } => ActionModel::Download { url: url@ },
            Action::WriteArchive { file, data } => ActionModel::WriteArchive {
                file: file@,
                data: data@,
            },
            Action::Unpack { file, dir } => ActionModel::Unpack { file: file@, dir: dir@ },
            Action::Fail { error } => ActionModel::Fail { error: *error },
            Action::Succeed => ActionModel::Succeed,
        }
    }
}

/// Where the pipeline stands, between two actions.
enum State {
    Resolving,
    Preparing { dir: String },
    Fetching { dir: String },
    Writing { dir: String },
    Unpacking { dir: String },
    Done,
    Failed { error: InstallError },
}

/// What a [`State`] means over mathematical values.
pub enum StateModel {
    /// Waiting for the home directory.
    Resolving,
    /// Waiting for the install directory `dir` to exist.
    Preparing { dir: Seq<char> },
    /// Waiting for the downloaded archive.
    Fetching { dir: Seq<char> },
    /// Waiting for the decompressed container to reach disk.
    Writing { dir: Seq<char> },
    /// Waiting for the container to be unpacked into `dir`.
    Unpacking { dir: Seq<char> },
    /// The install succeeded.
    Done,
    /// The install failed with `error`.
    Failed { error: InstallError },
}

impl View for State {
    type V = StateModel;

    closed spec fn view(&self) -> StateModel {
        match self {
            State::Resolving => StateModel::Resolving,
            State::Preparing { dir } => StateModel::Preparing { dir: dir@ },
            State::Fetching { dir } => StateModel::Fetching { dir: dir@ },
            State::Writing { dir } => StateModel::Writing { dir: dir@ },
            State::Unpacking { dir } => StateModel::Unpacking { dir: dir@ },
            State::Done => StateModel::Done,
            State::Failed { error } => StateModel::Failed { error: *error },
        }
    }
}

/// The state and the action of a failure: the pipeline records the error and
/// asks the driver to report it.
pub open spec fn failure(error: InstallError) -> (StateModel, ActionModel) {
    (StateModel::Failed { error }, ActionModel::Fail { error })
}

/// The transition relation of the pipeline: from a state and an event to the
/// next state and the next action, or nothing for an event that cannot
/// answer the pending action.
pub open spec fn next(version: Seq<char>, state: StateModel, event: EventModel) -> Option<
    (StateModel, ActionModel),
> {
    match (state, event) {
        (StateModel::Resolving, EventModel::HomeFound { home }) => Some(
            (
                StateModel::Preparing { dir: install_dir_of(home, version) },
                ActionModel::EnsureDir { dir: install_dir_of(home, version) },
            ),
        ),
        (StateModel::Resolving, EventModel::HomeMissing) => Some(
            failure(InstallError::NoHomeDirectory),
        ),
        (StateModel::Preparing { dir }, EventModel::DirReady) => Some(
            (StateModel::Fetching { dir }, ActionModel::Download { url: url_of(version) }),
        ),
        (StateModel::Preparing { dir }, EventModel::DirError) => Some(
            failure(InstallError::DirectoryCreationFailed),
        ),
        (StateModel::Fetching { dir }, EventModel::Response { status, body }) => {
            if !(200 <= status && status < 300) {
                Some(failure(InstallError::RemoteArchiveUnavailable))
            } else {
                match gunzip(body) {
                    Some(payload) => Some(
                        (
                            StateModel::Writing { dir },
                            ActionModel::WriteArchive { file: archive_file_of(dir), data: payload },
                        ),
                    ),
                    None => Some(failure(InstallError::DecompressionFailed)),
                }
            }
        },
        (StateModel::Fetching { dir }, EventModel::ConnectionFailed) => Some(
            failure(InstallError::NetworkError),
        ),
        (StateModel::Writing { dir }, EventModel::FileWritten) => Some(
            (
                StateModel::Unpacking { dir },
                ActionModel::Unpack { file: archive_file_of(dir), dir },
            ),
        ),
        (StateModel::Writing { dir }, EventModel::FileError) => Some(
            failure(InstallError::FileWriteFailed),
        ),
        (StateModel::Unpacking { dir }, EventModel::Unpacked) => Some(
            (StateModel::Done, ActionModel::Succeed),
        ),
        (StateModel::Unpacking { dir }, EventModel::UnpackError) => Some(
            failure(InstallError::UnpackFailed),
        ),
        _ => None,
    }
}

/// What the pipeline is, over mathematical values: the version being
/// installed and the current state.
pub struct PipelineModel {
    pub version: Seq<char>,
    pub state: StateModel,
}

/// One install in progress.
pub struct Pipeline {
    version: String,
    state: State,
}

impl View for Pipeline {
    type V = PipelineModel;

    closed spec fn view(&self) -> PipelineModel {
        PipelineModel { version: self.version@, state: self.state@ }
    }
}

impl Pipeline {
    /// Starts an install of `version`.  The first action is to discover the
    /// user's home directory.
    pub fn new(version: String) -> (result: (Pipeline, Action))
        ensures
            result.0@.version == version@,
            result.0@.state == StateModel::Resolving,
            result.1@ == ActionModel::FindHome,
    {
        (Pipeline { version, state: State::Resolving }, Action::FindHome)
    }

    /// Feeds the outcome of the previous action into the pipeline and
    /// returns the next action, exactly as the transition relation [`next`]
    /// prescribes.
    pub fn step(&mut self, event: Event) -> (action: Action)
        requires
            next(old(self)@.version, old(self)@.state, event@) is Some,
        ensures
            final(self)@.version == old(self)@.version,
            ((final(self)@.state, action@) == next(
                old(self)@.version,
                old(self)@.state,
                event@,
            ).unwrap()),
    {
        let mut state = State::Resolving;
        core::mem::swap(&mut state, &mut self.state);
        match (state, event) {
            (State::Resolving, Event::HomeFound { home }) => {
                let dir = install_dir(home.as_str(), self.version.as_str());
                let action = Action::EnsureDir { dir: dir.clone() };
                self.state = State::Preparing { dir };
                action
            },
            (State::Resolving, Event::HomeMissing) => self.fail(InstallError::NoHomeDirectory),
            (State::Preparing { dir }, Event::DirReady) => {
                let url = build_url(self.version.as_str());
                self.state = State::Fetching { dir };
                Action::Download { url }
            },
            (State::Preparing { dir: _ }, Event::DirError) => self.fail(
                InstallError::DirectoryCreationFailed,
            ),
            (State::Fetching { dir }, Event::Response { status, body }) => {
                if !(200 <= status && status < 300) {
                    self.fail(InstallError::RemoteArchiveUnavailable)
                } else {
                    match decompress(&body) {
                        Ok(data) => {
                            let file = archive_file(dir.as_str());
                            self.state = State::Writing { dir };
                            Action::WriteArchive { file, data }
                        },
                        Err(error) => self.fail(error),
                    }
                }
            },
            (State::Fetching { dir: _ }, Event::ConnectionFailed) => self.fail(
                InstallError::NetworkError,
            ),
            (State::Writing { dir }, Event::FileWritten) => {
                let file = archive_file(dir.as_str());
                let action = Action::Unpack { file, dir: dir.clone() };
                self.state = State::Unpacking { dir };
                action
            },
            (State::Writing { dir: _ }, Event::FileError) => self.fail(
                InstallError::FileWriteFailed,
            ),
            (State::Unpacking { dir: _ }, Event::Unpacked) => {
                self.state = State::Done;
                Action::Succeed
            },
            (State::Unpacking { dir: _ }, Event::UnpackError) => self.fail(
                InstallError::UnpackFailed,
            ),
            _ => unreached(),
        }
    }

    /// Records a failure and asks the driver to report it.
    fn fail(&mut self, error: InstallError) -> (action: Action)
        ensures
            final(self)@.version == old(self)@.version,
            ((final(self)@.state, action@) == failure(error)),
    {
        self.state = State::Failed { error };
        Action::Fail { error }
    }
}

/// A run of the pipeline over a whole sequence of events: the final state
/// and every action requested along the way, or nothing if some event could
/// not answer the action pending at its turn.
pub open spec fn run(version: Seq<char>, state: StateModel, events: Seq<EventModel>) -> Option<
    (StateModel, Seq<ActionModel>),
>
    decreases events.len(),
{
    if events.len() == 0 {
        Some((state, Seq::<ActionModel>::empty()))
    } else {
        match next(version, state, events.first()) {
            Some(step) => match run(version, step.0, events.drop_first()) {
                Some(rest) => Some((rest.0, seq![step.1] + rest.1)),
                None => None,
            },
            None => None,
        }
    }
}

/// Whether an action writes to the filesystem: writing the archive file, or
/// unpacking it into the install directory.
pub open spec fn writes_disk(action: ActionModel) -> bool {
    action is WriteArchive || action is Unpack
}

/// Whether an event is a successful download: a response with a success
/// status whose body is a well-formed gzip stream.
pub open spec fn is_successful_download(event: EventModel) -> bool {
    match event {
        EventModel::Response { status, body } => 200 <= status && status < 300 && gunzip(body)
            is Some,
        _ => false,
    }
}

/// No write to disk without a downloaded archive: as long as no event is a
/// successful download, a run of the pipeline from any state that is not
/// already writing or unpacking requests neither an archive write nor an
/// unpack.
pub proof fn lemma_no_disk_write_without_archive(
    version: Seq<char>,
    state: StateModel,
    events: Seq<EventModel>,
)
    requires
        !(state is Writing),
        !(state is Unpacking),
        run(version, state, events) is Some,
        forall|i: int| 0 <= i < events.len() ==> !is_successful_download(#[trigger] events[i]),
    ensures
        forall|i: int|
            0 <= i < run(version, state, events).unwrap().1.len() ==> !writes_disk(
                #[trigger] run(version, state, events).unwrap().1[i],
            ),
    decreases events.len(),
{
    if events.len() > 0 {
        let step = next(version, state, events.first()).unwrap();
        assert(!is_successful_download(events.first()));
        assert(!writes_disk(step.1));
        assert(!(step.0 is Writing) && !(step.0 is Unpacking));
        assert(forall|i: int|
            0 <= i < events.drop_first().len() ==> !is_successful_download(
                #[trigger] events.drop_first()[i],
            ));
        lemma_no_disk_write_without_archive(version, step.0, events.drop_first());
        let actions = run(version, state, events).unwrap().1;
        let rest = run(version, step.0, events.drop_first()).unwrap().1;
        assert(actions == seq![step.1] + rest);
        assert forall|i: int| 0 <= i < actions.len() implies !writes_disk(actions[i]) by {
            if i > 0 {
                assert(actions[i] == rest[i - 1]);
            }
        }
    }
}

/// A successful install runs the whole pipeline: once the home directory is
/// found, the install directory made ready, a success response with a
/// well-formed gzip body downloaded, and the container written and unpacked,
/// the pipeline is done — and the actions it requested were exactly: ensure
/// the install directory, download the version's URL, write the decompressed
/// container to the file beside the directory, unpack that file into the
/// directory, and report success.
pub proof fn lemma_successful_install(
    version: Seq<char>,
    home: Seq<char>,
    status: u16,
    body: Seq<u8>,
)
    requires
        200 <= status && status < 300,
        gunzip(body) is Some,
    ensures
        ({
            let dir = install_dir_of(home, version);
            let file = archive_file_of(dir);
            let events = seq![
                EventModel::HomeFound { home },
                EventModel::DirReady,
                EventModel::Response { status, body },
                EventModel::FileWritten,
                EventModel::Unpacked,
            ];
            run(version, StateModel::Resolving, events) == Some(
                (
                    StateModel::Done,
                    seq![
                        ActionModel::EnsureDir { dir },
                        ActionModel::Download { url: url_of(version) },
                        ActionModel::WriteArchive { file, data: gunzip(body).unwrap() },
                        ActionModel::Unpack { file, dir },
                        ActionModel::Succeed,
                    ],
                ),
            )
        }),
{
    let dir = install_dir_of(home, version);
    let file = archive_file_of(dir);
    let events = seq![
        EventModel::HomeFound { home },
        EventModel::DirReady,
        EventModel::Response { status, body },
        EventModel::FileWritten,
        EventModel::Unpacked,
    ];
    let tail1 = seq![
        EventModel::DirReady,
        EventModel::Response { status, body },
        EventModel::FileWritten,
        EventModel::Unpacked,
    ];
    let tail2 = seq![
        EventModel::Response { status, body },
        EventModel::FileWritten,
        EventModel::Unpacked,
    ];
    let tail3 = seq![EventModel::FileWritten, EventModel::Unpacked];
    let tail4 = seq![EventModel::Unpacked];
    let tail5 = Seq::<EventModel>::empty();
    assert(events.drop_first() =~= tail1);
    assert(tail1.drop_first() =~= tail2);
    assert(tail2.drop_first() =~= tail3);
    assert(tail3.drop_first() =~= tail4);
    assert(tail4.drop_first() =~= tail5);
    let acts5 = Seq::<ActionModel>::empty();
    let acts4 = seq![ActionModel::Succeed] + acts5;
    let acts3 = seq![ActionModel::Unpack { file, dir }] + acts4;
    let acts2 = seq![ActionModel::WriteArchive { file, data: gunzip(body).unwrap() }] + acts3;
    let acts1 = seq![ActionModel::Download { url: url_of(version) }] + acts2;
    let acts0 = seq![ActionModel::EnsureDir { dir }] + acts1;
    assert(run(version, StateModel::Done, tail5) == Some((StateModel::Done, acts5)));
    assert(run(version, StateModel::Unpacking { dir }, tail4) == Some((StateModel::Done, acts4)));
    assert(run(version, StateModel::Writing { dir }, tail3) == Some((StateModel::Done, acts3)));
    assert(run(version, StateModel::Fetching { dir }, tail2) == Some((StateModel::Done, acts2)));
    assert(run(version, StateModel::Preparing { dir }, tail1) == Some((StateModel::Done, acts1)));
    assert(run(version, StateModel::Resolving, events) == Some((StateModel::Done, acts0)));
    assert(acts0 =~= seq![
        ActionModel::EnsureDir { dir },
        ActionModel::Download { url: url_of(version) },
        ActionModel::WriteArchive { file, data: gunzip(body).unwrap() },
        ActionModel::Unpack { file, dir },
        ActionModel::Succeed,
    ]);
}

/// A connection failure during the download fails the install with
/// `NetworkError`, and the failed pipeline accepts no further event, so no
/// later action — in particular no write to disk — is ever requested.
pub proof fn lemma_connection_failure_halts(version: Seq<char>, dir: Seq<char>)
    ensures
        (next(version, StateModel::Fetching { dir }, EventModel::ConnectionFailed) == Some(
            failure(InstallError::NetworkError),
        )),
        forall|event: EventModel|
            (#[trigger] next(
                version,
                StateModel::Failed { error: InstallError::NetworkError },
                event,
            )) is None,
{
}

/// A response whose body is not well-formed gzip fails the install: with
/// `DecompressionFailed` on a success status, and with
/// `RemoteArchiveUnavailable` on any other.  The failed pipeline accepts no
/// further event, so nothing is ever extracted into the install directory.
pub proof fn lemma_bad_gzip_halts(version: Seq<char>, dir: Seq<char>, status: u16, body: Seq<u8>)
    requires
        gunzip(body) is None,
    ensures
        (next(version, StateModel::Fetching { dir }, EventModel::Response { status, body })
            == Some(
            failure(
                if 200 <= status && status < 300 {
                    InstallError::DecompressionFailed
                } else {
                    InstallError::RemoteArchiveUnavailable
                },
            ),
        )),
        forall|event: EventModel|
            (#[trigger] next(
                version,
                StateModel::Failed { error: InstallError::DecompressionFailed },
                event,
            )) is None,
{
}

} // verus!
