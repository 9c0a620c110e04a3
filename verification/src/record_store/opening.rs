//! How a store is opened. The work on the file system is the caller's; what
//! to try next, when to fall back to memory and when to give up is decided
//! here.

use crate::record_store::db::{DayPartition, DayPartitionView};
use crate::record_store::store::Backend;
use crate::record_store::utils::{message_of, RecordStoreError, RecordStoreErrorView};
use vstd::string::StringExecFns;
use vstd::prelude::*;

verus! {

/// The name of the file in the data directory that holds the container.
pub const DB_FILE_NAME: &'static str = "records.db";

/// What the caller is asked to do.
#[derive(Debug, Clone, Copy, PartialEq, Eq, Structural)]
pub enum OpenPhase {
    /// Find the data directory, or make it.
    AcquireDirectory,
    /// Open the container's file in it, or make the file.
    OpenFile,
    /// Write an empty container to the file, which is new, so that the next
    /// load does not read a file without content.
    WriteEmpty,
    /// Load the container from the file.
    Load,
}

/// How the caller fared with what it was asked to do. A failure comes with
/// the account that the file system or the backend gave of it.
#[derive(Debug)]
pub enum OpenEvent {
    DirectoryReady,
    DirectoryFailed(String),
    FileOpened { existed: bool },
    FileFailed,
    Written,
    WriteFailed(String),
    Loaded(Vec<DayPartition>),
    LoadFailed(String),
}

/// Mathematical model of an [`OpenEvent`].
pub enum OpenEventView {
    DirectoryReady,
    DirectoryFailed(Seq<char>),
    FileOpened { existed: bool },
    FileFailed,
    Written,
    WriteFailed(Seq<char>),
    Loaded(Seq<DayPartitionView>),
    LoadFailed(Seq<char>),
}

impl View for OpenEvent {
    type V = OpenEventView;

    open spec fn view(&self) -> OpenEventView {
        match self {
            OpenEvent::DirectoryReady => OpenEventView::DirectoryReady,
            OpenEvent::DirectoryFailed(fault) => OpenEventView::DirectoryFailed(fault@),
            OpenEvent::FileOpened { existed } => OpenEventView::FileOpened { existed: *existed },
            OpenEvent::FileFailed => OpenEventView::FileFailed,
            OpenEvent::Written => OpenEventView::Written,
            OpenEvent::WriteFailed(fault) => OpenEventView::WriteFailed(fault@),
            OpenEvent::Loaded(parts) => OpenEventView::Loaded(parts.deep_view()),
            OpenEvent::LoadFailed(fault) => OpenEventView::LoadFailed(fault@),
        }
    }
}

/// What follows from an event.
#[derive(Debug)]
pub enum OpenStep {
    /// The caller is asked to do the work of the given phase.
    Next(OpenPhase),
    /// The store can be made, over `loaded` and with `backend`. A `notice`
    /// is there where the file could not be had: the operator is to be told
    /// with it that the records of this session will not be kept.
    Ready { backend: Backend, loaded: Vec<DayPartition>, notice: Option<String> },
    /// No store can be made.
    Failed(RecordStoreError),
}

/// Mathematical model of an [`OpenStep`].
pub enum OpenStepView {
    Next(OpenPhase),
    Ready { backend: Backend, loaded: Seq<DayPartitionView>, notice: Option<Seq<char>> },
    Failed(RecordStoreErrorView),
}

impl View for OpenStep {
    type V = OpenStepView;

    open spec fn view(&self) -> OpenStepView {
        match self {
            OpenStep::Next(phase) => OpenStepView::Next(*phase),
            OpenStep::Ready { backend, loaded, notice } => OpenStepView::Ready {
                backend: *backend,
                loaded: loaded.deep_view(),
                notice: notice.deep_view(),
            },
            OpenStep::Failed(error) => OpenStepView::Failed(error@),
        }
    }
}

/// What the operator is told when the store falls back to memory, before
/// the account of the fault.
pub const FALLBACK_NOTICE: &'static str =
    "Could not access application's data directory to access database files.\n\
     Will proceed with in-memory database for now.\n\
     Your tracking data WILL NOT be saved once the application is closed.\n";

/// The end of an opening that could not have the file for the reason
/// `fault`: an empty container in memory, and a notice for the operator.
pub open spec fn fallen_back(fault: Seq<char>) -> OpenStepView {
    OpenStepView::Ready {
        backend: Backend::InMemory,
        loaded: Seq::empty(),
        notice: Some(FALLBACK_NOTICE@ + fault),
    }
}

/// What follows from `event` in `phase`. A missing directory, a file that
/// cannot be opened and a new file that cannot be written all end in memory.
/// Only a file that is there and cannot be loaded ends the opening without a
/// store. An event that does not answer the phase changes nothing.
pub open spec fn step_of(phase: OpenPhase, event: OpenEventView) -> OpenStepView {
    match (phase, event) {
        (OpenPhase::AcquireDirectory, OpenEventView::DirectoryReady) => OpenStepView::Next(
            OpenPhase::OpenFile,
        ),
        (OpenPhase::AcquireDirectory, OpenEventView::DirectoryFailed(fault)) => fallen_back(fault),
        (OpenPhase::OpenFile, OpenEventView::FileOpened { existed }) => if existed {
            OpenStepView::Next(OpenPhase::Load)
        } else {
            OpenStepView::Next(OpenPhase::WriteEmpty)
        },
        (OpenPhase::OpenFile, OpenEventView::FileFailed) => fallen_back(
            message_of(RecordStoreErrorView::FailedToSwitchDB),
        ),
        (OpenPhase::WriteEmpty, OpenEventView::Written) => OpenStepView::Next(OpenPhase::Load),
        (OpenPhase::WriteEmpty, OpenEventView::WriteFailed(fault)) => fallen_back(
            message_of(RecordStoreErrorView::DBFailed(fault)),
        ),
        (OpenPhase::Load, OpenEventView::Loaded(parts)) => OpenStepView::Ready {
            backend: Backend::FileBacked,
            loaded: parts,
            notice: None,
        },
        (OpenPhase::Load, OpenEventView::LoadFailed(fault)) => OpenStepView::Failed(
            RecordStoreErrorView::DBFailed(fault),
        ),
        _ => OpenStepView::Next(phase),
    }
}

/// The phase in which every opening begins.
pub fn first_phase() -> (phase: OpenPhase)
    ensures
        phase == OpenPhase::AcquireDirectory,
{
    OpenPhase::AcquireDirectory
}

fn fall_back(fault: String) -> (step: OpenStep)
    ensures
        step@ == fallen_back(fault@),
{
    let loaded: Vec<DayPartition> = Vec::new();
    assert(loaded.deep_view() =~= Seq::empty());
    let notice = FALLBACK_NOTICE.to_owned().concat(fault.as_str());
    OpenStep::Ready { backend: Backend::InMemory, loaded, notice: Some(notice) }
}

/// Decides what follows from `event` in `phase`.
pub fn advance(phase: OpenPhase, event: OpenEvent) -> (step: OpenStep)
    ensures
        step@ == step_of(phase, event@),
{
    match phase {
        OpenPhase::AcquireDirectory => match event {
            OpenEvent::DirectoryReady => OpenStep::Next(OpenPhase::OpenFile),
            OpenEvent::DirectoryFailed(fault) => fall_back(fault),
            _ => OpenStep::Next(phase),
        },
        OpenPhase::OpenFile => match event {
            OpenEvent::FileOpened { existed } => if existed {
                OpenStep::Next(OpenPhase::Load)
            } else {
                OpenStep::Next(OpenPhase::WriteEmpty)
            },
            OpenEvent::FileFailed => fall_back(RecordStoreError::FailedToSwitchDB.message()),
            _ => OpenStep::Next(phase),
        },
        OpenPhase::WriteEmpty => match event {
            OpenEvent::Written => OpenStep::Next(OpenPhase::Load),
            OpenEvent::WriteFailed(fault) => fall_back(RecordStoreError::DBFailed(fault).message()),
            _ => OpenStep::Next(phase),
        },
        OpenPhase::Load => match event {
            OpenEvent::Loaded(parts) => OpenStep::Ready {
                backend: Backend::FileBacked,
                loaded: parts,
                notice: None,
            },
            OpenEvent::LoadFailed(fault) => OpenStep::Failed(RecordStoreError::DBFailed(fault)),
            _ => OpenStep::Next(phase),
        },
    }
}

/// Whether an event reports that something on the file system failed before
/// anything was loaded.
pub open spec fn is_early_failure(event: OpenEventView) -> bool {
    event is DirectoryFailed || event is FileFailed || event is WriteFailed
}

/// An opening never fails for want of a directory or a file. In the phase
/// that it answers, an event of that kind ends the opening with an empty
/// container in memory and a notice; in any other phase it changes nothing.
/// The only way to end without a store is a load that failed.
pub proof fn lemma_opening_falls_back(phase: OpenPhase, event: OpenEventView)
    ensures
        is_early_failure(event) ==> step_of(phase, event) == OpenStepView::Next(phase) || (
        step_of(phase, event) matches OpenStepView::Ready { backend, loaded, notice }
            && backend == Backend::InMemory && loaded == Seq::<DayPartitionView>::empty()
            && notice is Some),
        phase == OpenPhase::AcquireDirectory && event is DirectoryFailed ==> step_of(phase, event)
            is Ready,
        phase == OpenPhase::OpenFile && event is FileFailed ==> step_of(phase, event) is Ready,
        phase == OpenPhase::WriteEmpty && event is WriteFailed ==> step_of(phase, event) is Ready,
        step_of(phase, event) is Failed ==> phase == OpenPhase::Load && event is LoadFailed,
{
}

} // verus!
