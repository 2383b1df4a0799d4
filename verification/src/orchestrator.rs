//! The per-item import state machine.  The session walks the manifest's rows
//! in file order and, within each row, the `;`-separated sub-identifiers of
//! the identifier column, in order.  For each sub-identifier it sequences
//! operator confirmation, label retrieval, collision detection, imaging,
//! content copy and eject.  The machine only decides: every device,
//! filesystem or operator interaction is requested through an
//! [`ImportAction`] and its outcome handed back as an [`ImportEvent`], so
//! the whole decision logic is verified against `step_spec` while the
//! blocking work stays outside.

use vstd::prelude::*;
use crate::path_planner::copy_path;
use crate::path_planner::copy_path_spec;
use crate::path_planner::image_path;
use crate::path_planner::image_path_spec;
use crate::text::lemma_split_on_nonempty;
use crate::text::split_char;
use crate::text::split_on;

verus! {

/// The operator's answer to a collision prompt: abandon only the current
/// sub-identifier, or cancel the whole run.
#[derive(Debug, PartialEq, Eq, Clone, Copy)]
pub enum CollisionChoice {
    SkipItem,
    CancelImport,
}

/// Where the machine stands for the current sub-identifier; the phases that
/// follow label retrieval carry the retrieved device label, because the
/// artifact paths depend on it.
#[derive(Debug, PartialEq, Eq)]
pub enum ImportPhase {
    ConfirmingInsertion,
    EjectingForRetry,
    ReadingLabel,
    CheckingImagePath { label: String },
    AwaitingImageChoice { label: String },
    DumpingImage { label: String },
    CheckingCopyPath { label: String },
    AwaitingCopyChoice { label: String },
    CopyingContents { label: String },
    EjectingAfterItem,
    Complete,
    Cancelled,
}

/// The ghost counterpart of [`ImportPhase`].
pub ghost enum PhaseV {
    ConfirmingInsertion,
    EjectingForRetry,
    ReadingLabel,
    CheckingImagePath { label: Seq<char> },
    AwaitingImageChoice { label: Seq<char> },
    DumpingImage { label: Seq<char> },
    CheckingCopyPath { label: Seq<char> },
    AwaitingCopyChoice { label: Seq<char> },
    CopyingContents { label: Seq<char> },
    EjectingAfterItem,
    Complete,
    Cancelled,
}

impl View for ImportPhase {
    type V = PhaseV;

    open spec fn view(&self) -> PhaseV {
        match self {
            ImportPhase::ConfirmingInsertion => PhaseV::ConfirmingInsertion,
            ImportPhase::EjectingForRetry => PhaseV::EjectingForRetry,
            ImportPhase::ReadingLabel => PhaseV::ReadingLabel,
            ImportPhase::CheckingImagePath { label } => PhaseV::CheckingImagePath {
                label: label@,
            },
            ImportPhase::AwaitingImageChoice { label } => PhaseV::AwaitingImageChoice {
                label: label@,
            },
            ImportPhase::DumpingImage { label } => PhaseV::DumpingImage { label: label@ },
            ImportPhase::CheckingCopyPath { label } => PhaseV::CheckingCopyPath {
                label: label@,
            },
            ImportPhase::AwaitingCopyChoice { label } => PhaseV::AwaitingCopyChoice {
                label: label@,
            },
            ImportPhase::CopyingContents { label } => PhaseV::CopyingContents { label: label@ },
            ImportPhase::EjectingAfterItem => PhaseV::EjectingAfterItem,
            ImportPhase::Complete => PhaseV::Complete,
            ImportPhase::Cancelled => PhaseV::Cancelled,
        }
    }
}

/// The outcome of the last requested action, handed back to the machine.
#[derive(Debug, PartialEq, Eq)]
pub enum ImportEvent {
    /// The operator's answer to the insertion prompt.
    Answered { yes: bool },
    /// The tray was ejected.
    Ejected,
    /// The inserted disc's volume label.
    LabelRead { label: String },
    /// Whether the checked artifact path already exists.
    PathChecked { exists: bool },
    /// The operator's choice at a collision prompt.
    Chose { choice: CollisionChoice },
    /// The image file was written.
    ImageDumped,
    /// The disc contents were copied.
    ContentsCopied,
}

/// The ghost counterpart of [`ImportEvent`].
pub ghost enum EventV {
    Answered { yes: bool },
    Ejected,
    LabelRead { label: Seq<char> },
    PathChecked { exists: bool },
    Chose { choice: CollisionChoice },
    ImageDumped,
    ContentsCopied,
}

impl View for ImportEvent {
    type V = EventV;

    open spec fn view(&self) -> EventV {
        match self {
            ImportEvent::Answered { yes } => EventV::Answered { yes: *yes },
            ImportEvent::Ejected => EventV::Ejected,
            ImportEvent::LabelRead { label } => EventV::LabelRead { label: label@ },
            ImportEvent::PathChecked { exists } => EventV::PathChecked { exists: *exists },
            ImportEvent::Chose { choice } => EventV::Chose { choice: *choice },
            ImportEvent::ImageDumped => EventV::ImageDumped,
            ImportEvent::ContentsCopied => EventV::ContentsCopied,
        }
    }
}

/// What the machine asks the surrounding program to do next.  Every request
/// is blocking; its outcome comes back as the matching [`ImportEvent`].
#[derive(Debug, PartialEq, Eq)]
pub enum ImportAction {
    /// Ask the operator whether the disc for this sub-identifier is inserted
    /// into the device.
    ConfirmInsertion { sub_identifier: String, device: String },
    /// Eject the tray.
    EjectTray,
    /// Read the inserted disc's volume label from the device.
    ReadLabel { device: String },
    /// Report whether the image path already exists.
    CheckImagePath { path: String },
    /// The image path exists: ask the operator to skip this sub-identifier
    /// or cancel the run.
    AskImageCollision { path: String, sub_identifier: String },
    /// Write an image of the device's medium to the destination path.
    DumpImage { device: String, label: String, dest: String },
    /// Report whether the content-copy path already exists.
    CheckCopyPath { path: String },
    /// The content-copy path exists: ask the operator to skip this
    /// sub-identifier or cancel the run.
    AskCopyCollision { path: String, sub_identifier: String },
    /// Recursively copy the medium's contents to the destination path.
    CopyContents { device: String, label: String, dest: String },
    /// Every row has been processed: the run is complete.
    Finished,
    /// The operator cancelled the run.
    Cancelled,
}

/// The ghost counterpart of [`ImportAction`].
pub ghost enum ActionV {
    ConfirmInsertion { sub_identifier: Seq<char>, device: Seq<char> },
    EjectTray,
    ReadLabel { device: Seq<char> },
    CheckImagePath { path: Seq<char> },
    AskImageCollision { path: Seq<char>, sub_identifier: Seq<char> },
    DumpImage { device: Seq<char>, label: Seq<char>, dest: Seq<char> },
    CheckCopyPath { path: Seq<char> },
    AskCopyCollision { path: Seq<char>, sub_identifier: Seq<char> },
    CopyContents { device: Seq<char>, label: Seq<char>, dest: Seq<char> },
    Finished,
    Cancelled,
}

impl View for ImportAction {
    type V = ActionV;

    open spec fn view(&self) -> ActionV {
        match self {
            ImportAction::ConfirmInsertion { sub_identifier, device } => {
                ActionV::ConfirmInsertion { sub_identifier: sub_identifier@, device: device@ }
            },
            ImportAction::EjectTray => ActionV::EjectTray,
            ImportAction::ReadLabel { device } => ActionV::ReadLabel { device: device@ },
            ImportAction::CheckImagePath { path } => ActionV::CheckImagePath { path: path@ },
            ImportAction::AskImageCollision { path, sub_identifier } => {
                ActionV::AskImageCollision { path: path@, sub_identifier: sub_identifier@ }
            },
            ImportAction::DumpImage { device, label, dest } => ActionV::DumpImage {
                device: device@,
                label: label@,
                dest: dest@,
            },
            ImportAction::CheckCopyPath { path } => ActionV::CheckCopyPath { path: path@ },
            ImportAction::AskCopyCollision { path, sub_identifier } => {
                ActionV::AskCopyCollision { path: path@, sub_identifier: sub_identifier@ }
            },
            ImportAction::CopyContents { device, label, dest } => ActionV::CopyContents {
                device: device@,
                label: label@,
                dest: dest@,
            },
            ImportAction::Finished => ActionV::Finished,
            ImportAction::Cancelled => ActionV::Cancelled,
        }
    }
}

/// The ghost state of a session: the fixed batch configuration and the
/// cursor (row, sub-identifier, phase).
pub ghost struct SessionV {
    pub rows: Seq<Seq<Seq<char>>>,
    pub pit: int,
    pub raw: Seq<char>,
    pub device: Seq<char>,
    pub row: int,
    pub subs: Seq<Seq<char>>,
    pub sub: int,
    pub phase: PhaseV,
}

/// The phases in which the session still points at a sub-identifier.
pub open spec fn phase_active(p: PhaseV) -> bool {
    !(p is Complete || p is Cancelled)
}

/// Session well-formedness: the identifier column lies within every row,
/// the cursor is in bounds, and while the session is active the current
/// sub-identifier list is exactly the split of the current row's identifier
/// value.
pub open spec fn session_wf(s: SessionV) -> bool {
    &&& forall|i: int| 0 <= i < s.rows.len() ==> s.pit < (#[trigger] s.rows[i]).len()
    &&& 0 <= s.pit
    &&& 0 <= s.row <= s.rows.len()
    &&& s.rows.len() <= usize::MAX
    &&& phase_active(s.phase) ==> {
        &&& s.row < s.rows.len()
        &&& 0 <= s.sub < s.subs.len()
        &&& s.subs == split_on(s.rows[s.row][s.pit], ';')
    }
}

/// Where the cursor moves when the current sub-identifier is finished or
/// skipped: the next sub-identifier of the row, else the first
/// sub-identifier of the next row, else completion.
pub open spec fn advance_spec(s: SessionV) -> SessionV {
    if s.sub + 1 < s.subs.len() {
        SessionV { sub: s.sub + 1, phase: PhaseV::ConfirmingInsertion, ..s }
    } else if s.row + 1 < s.rows.len() {
        SessionV {
            row: s.row + 1,
            subs: split_on(s.rows[s.row + 1][s.pit], ';'),
            sub: 0,
            phase: PhaseV::ConfirmingInsertion,
            ..s
        }
    } else {
        SessionV { phase: PhaseV::Complete, ..s }
    }
}

/// The transition relation of the machine.  An event that does not answer
/// the pending action leaves the state unchanged.
pub open spec fn step_spec(s: SessionV, ev: EventV) -> SessionV {
    match (s.phase, ev) {
        (PhaseV::ConfirmingInsertion, EventV::Answered { yes }) => {
            if yes {
                SessionV { phase: PhaseV::ReadingLabel, ..s }
            } else {
                SessionV { phase: PhaseV::EjectingForRetry, ..s }
            }
        },
        (PhaseV::EjectingForRetry, EventV::Ejected) => SessionV {
            phase: PhaseV::ConfirmingInsertion,
            ..s
        },
        (PhaseV::ReadingLabel, EventV::LabelRead { label }) => SessionV {
            phase: PhaseV::CheckingImagePath { label },
            ..s
        },
        (PhaseV::CheckingImagePath { label }, EventV::PathChecked { exists }) => {
            if exists {
                SessionV { phase: PhaseV::AwaitingImageChoice { label }, ..s }
            } else {
                SessionV { phase: PhaseV::DumpingImage { label }, ..s }
            }
        },
        (PhaseV::AwaitingImageChoice { label }, EventV::Chose { choice }) => {
            match choice {
                CollisionChoice::SkipItem => advance_spec(s),
                CollisionChoice::CancelImport => SessionV { phase: PhaseV::Cancelled, ..s },
            }
        },
        (PhaseV::DumpingImage { label }, EventV::ImageDumped) => SessionV {
            phase: PhaseV::CheckingCopyPath { label },
            ..s
        },
        (PhaseV::CheckingCopyPath { label }, EventV::PathChecked { exists }) => {
            if exists {
                SessionV { phase: PhaseV::AwaitingCopyChoice { label }, ..s }
            } else {
                SessionV { phase: PhaseV::CopyingContents { label }, ..s }
            }
        },
        (PhaseV::AwaitingCopyChoice { label }, EventV::Chose { choice }) => {
            match choice {
                CollisionChoice::SkipItem => advance_spec(s),
                CollisionChoice::CancelImport => SessionV { phase: PhaseV::Cancelled, ..s },
            }
        },
        (PhaseV::CopyingContents { label: _ }, EventV::ContentsCopied) => SessionV {
            phase: PhaseV::EjectingAfterItem,
            ..s
        },
        (PhaseV::EjectingAfterItem, EventV::Ejected) => advance_spec(s),
        _ => s,
    }
}

/// The action the machine requests in each state: a pure function of the
/// state, so the artifact paths are recomputed from the row, sub-identifier
/// and label the cursor points at.
pub open spec fn action_spec(s: SessionV) -> ActionV {
    match s.phase {
        PhaseV::ConfirmingInsertion => ActionV::ConfirmInsertion {
            sub_identifier: s.subs[s.sub],
            device: s.device,
        },
        PhaseV::EjectingForRetry => ActionV::EjectTray,
        PhaseV::ReadingLabel => ActionV::ReadLabel { device: s.device },
        PhaseV::CheckingImagePath { label } => ActionV::CheckImagePath {
            path: image_path_spec(s.raw, s.subs[s.sub], label),
        },
        PhaseV::AwaitingImageChoice { label } => ActionV::AskImageCollision {
            path: image_path_spec(s.raw, s.subs[s.sub], label),
            sub_identifier: s.subs[s.sub],
        },
        PhaseV::DumpingImage { label } => ActionV::DumpImage {
            device: s.device,
            label,
            dest: image_path_spec(s.raw, s.subs[s.sub], label),
        },
        PhaseV::CheckingCopyPath { label } => ActionV::CheckCopyPath {
            path: copy_path_spec(s.raw, s.subs[s.sub], label),
        },
        PhaseV::AwaitingCopyChoice { label } => ActionV::AskCopyCollision {
            path: copy_path_spec(s.raw, s.subs[s.sub], label),
            sub_identifier: s.subs[s.sub],
        },
        PhaseV::CopyingContents { label } => ActionV::CopyContents {
            device: s.device,
            label,
            dest: copy_path_spec(s.raw, s.subs[s.sub], label),
        },
        PhaseV::EjectingAfterItem => ActionV::EjectTray,
        PhaseV::Complete => ActionV::Finished,
        PhaseV::Cancelled => ActionV::Cancelled,
    }
}

/// The state a session starts in: the first sub-identifier of the first row,
/// or completion when the manifest has no rows.
pub open spec fn init_spec(
    rows: Seq<Seq<Seq<char>>>,
    pit: int,
    raw: Seq<char>,
    device: Seq<char>,
) -> SessionV {
    if rows.len() == 0 {
        SessionV {
            rows,
            pit,
            raw,
            device,
            row: 0,
            subs: Seq::empty(),
            sub: 0,
            phase: PhaseV::Complete,
        }
    } else {
        SessionV {
            rows,
            pit,
            raw,
            device,
            row: 0,
            subs: split_on(rows[0][pit], ';'),
            sub: 0,
            phase: PhaseV::ConfirmingInsertion,
        }
    }
}

/// Rows and sub-identifiers are processed strictly in file order: no step
/// changes the batch configuration, and no step moves the cursor backwards.
pub proof fn lemma_step_keeps_order(s: SessionV, ev: EventV)
    requires
        session_wf(s),
    ensures
        step_spec(s, ev).rows == s.rows,
        step_spec(s, ev).pit == s.pit,
        step_spec(s, ev).raw == s.raw,
        step_spec(s, ev).device == s.device,
        step_spec(s, ev).row > s.row || (step_spec(s, ev).row == s.row && step_spec(s, ev).sub
            >= s.sub),
{
}

/// Choosing to skip at a collision prompt abandons only the current
/// sub-identifier: the machine continues, well-formed, at the next
/// sub-identifier in order, or at the next row's first sub-identifier, or
/// completes; it never returns to a writing phase for the skipped item.
pub proof fn lemma_skip_continues(s: SessionV)
    requires
        session_wf(s),
        s.phase is AwaitingImageChoice || s.phase is AwaitingCopyChoice,
    ensures
        ({
            let t = step_spec(s, EventV::Chose { choice: CollisionChoice::SkipItem });
            &&& session_wf(t)
            &&& s.sub + 1 < s.subs.len() ==> (t.phase is ConfirmingInsertion && t.row == s.row
                && t.sub == s.sub + 1)
            &&& (s.sub + 1 == s.subs.len() && s.row + 1 < s.rows.len()) ==> (t.phase
                is ConfirmingInsertion && t.row == s.row + 1 && t.sub == 0)
            &&& (s.sub + 1 == s.subs.len() && s.row + 1 == s.rows.len()) ==> t.phase is Complete
        }),
{
    if s.sub + 1 == s.subs.len() && s.row + 1 < s.rows.len() {
        lemma_split_on_nonempty(s.rows[s.row + 1][s.pit], ';');
    }
}

/// Choosing to cancel at a collision prompt terminates the whole run at
/// once: the machine is cancelled with the cursor untouched, so no further
/// row or sub-identifier is visited.
pub proof fn lemma_cancel_terminates(s: SessionV)
    requires
        session_wf(s),
        s.phase is AwaitingImageChoice || s.phase is AwaitingCopyChoice,
    ensures
        ({
            let t = step_spec(s, EventV::Chose { choice: CollisionChoice::CancelImport });
            &&& t.phase is Cancelled
            &&& t.row == s.row
            &&& t.sub == s.sub
        }),
{
}

/// One import session: the batch configuration and the machine's cursor.
pub struct ImportSession {
    pub rows: Vec<Vec<String>>,
    pub pit_column_index: usize,
    pub raw_location: String,
    pub device: String,
    pub row: usize,
    pub subs: Vec<String>,
    pub sub: usize,
    pub phase: ImportPhase,
}

impl View for ImportSession {
    type V = SessionV;

    open spec fn view(&self) -> SessionV {
        SessionV {
            rows: self.rows.deep_view(),
            pit: self.pit_column_index as int,
            raw: self.raw_location@,
            device: self.device@,
            row: self.row as int,
            subs: self.subs.deep_view(),
            sub: self.sub as int,
            phase: self.phase@,
        }
    }
}

impl ImportSession {
    /// Opens a session over the batch's rows; refuses an identifier column
    /// position that lies outside some row.
    pub fn new(
        rows: Vec<Vec<String>>,
        pit_column_index: usize,
        raw_location: String,
        device: String,
    ) -> (r: Option<ImportSession>)
        ensures
            match r {
                Some(s) => {
                    &&& s@ == init_spec(
                        rows.deep_view(),
                        pit_column_index as int,
                        raw_location@,
                        device@,
                    )
                    &&& session_wf(s@)
                },
                None => exists|i: int|
                    0 <= i < rows.deep_view().len() && (#[trigger] rows.deep_view()[i]).len()
                        <= pit_column_index,
            },
    {
        let mut i: usize = 0;
        while i < rows.len()
            invariant
                i <= rows.len(),
                forall|j: int|
                    0 <= j < i ==> pit_column_index < (#[trigger] rows.deep_view()[j]).len(),
            decreases rows.len() - i,
        {
            if rows[i].len() <= pit_column_index {
                proof {
                    assert(rows.deep_view()[i as int].len() <= pit_column_index);
                }
                return None;
            }
            i = i + 1;
        }
        proof {
            assert(rows.deep_view().len() == rows.len());
        }
        if rows.len() == 0 {
            let subs: Vec<String> = Vec::new();
            proof {
                assert(subs.deep_view() =~= Seq::<Seq<char>>::empty());
            }
            Some(
                ImportSession {
                    rows,
                    pit_column_index,
                    raw_location,
                    device,
                    row: 0,
                    subs,
                    sub: 0,
                    phase: ImportPhase::Complete,
                },
            )
        } else {
            proof {
                assert(rows.deep_view()[0] == rows@[0].deep_view());
                assert(rows@[0].deep_view().len() == rows@[0]@.len());
                assert(rows@[0].deep_view()[pit_column_index as int] == rows@[0]@[pit_column_index
                    as int]@);
            }
            let subs = split_char(rows[0][pit_column_index].as_str(), ';');
            proof {
                assert(subs.deep_view().len() == subs.len());
                assert(subs.deep_view() == split_on(
                    rows.deep_view()[0][pit_column_index as int],
                    ';',
                ));
            }
            let s = ImportSession {
                rows,
                pit_column_index,
                raw_location,
                device,
                row: 0,
                subs,
                sub: 0,
                phase: ImportPhase::ConfirmingInsertion,
            };
            Some(s)
        }
    }

    /// Moves the cursor past the current sub-identifier.
    fn advance(&mut self)
        requires
            session_wf(old(self)@),
            old(self)@.row < old(self)@.rows.len(),
            0 <= old(self)@.sub < old(self)@.subs.len(),
            old(self)@.subs == split_on(old(self)@.rows[old(self)@.row][old(self)@.pit], ';'),
        ensures
            final(self)@ == advance_spec(old(self)@),
            session_wf(final(self)@),
    {
        proof {
            assert(self.subs.deep_view().len() == self.subs.len());
            assert(self.rows.deep_view().len() == self.rows.len());
        }
        if self.sub + 1 < self.subs.len() {
            self.sub = self.sub + 1;
            self.phase = ImportPhase::ConfirmingInsertion;
        } else if self.row + 1 < self.rows.len() {
            self.row = self.row + 1;
            proof {
                assert(self.rows.deep_view()[self.row as int] == self.rows@[self.row
                    as int].deep_view());
                assert(self.rows@[self.row as int].deep_view().len() == self.rows@[self.row
                    as int]@.len());
                assert(self.rows@[self.row as int].deep_view()[self.pit_column_index as int]
                    == self.rows@[self.row as int]@[self.pit_column_index as int]@);
            }
            self.subs = split_char(self.rows[self.row][self.pit_column_index].as_str(), ';');
            self.sub = 0;
            self.phase = ImportPhase::ConfirmingInsertion;
            proof {
                assert(self.subs.deep_view().len() == self.subs.len());
            }
        } else {
            self.phase = ImportPhase::Complete;
        }
    }

    /// Feeds the outcome of the last requested action into the machine; the
    /// new state is exactly `step_spec` of the old state and the event.
    pub fn step(&mut self, event: ImportEvent)
        requires
            session_wf(old(self)@),
        ensures
            final(self)@ == step_spec(old(self)@, event@),
            session_wf(final(self)@),
    {
        match (&self.phase, event) {
            (ImportPhase::ConfirmingInsertion, ImportEvent::Answered { yes }) => {
                if yes {
                    self.phase = ImportPhase::ReadingLabel;
                } else {
                    self.phase = ImportPhase::EjectingForRetry;
                }
            },
            (ImportPhase::EjectingForRetry, ImportEvent::Ejected) => {
                self.phase = ImportPhase::ConfirmingInsertion;
            },
            (ImportPhase::ReadingLabel, ImportEvent::LabelRead { label }) => {
                self.phase = ImportPhase::CheckingImagePath { label };
            },
            (ImportPhase::CheckingImagePath { label }, ImportEvent::PathChecked { exists }) => {
                let l = label.clone();
                if exists {
                    self.phase = ImportPhase::AwaitingImageChoice { label: l };
                } else {
                    self.phase = ImportPhase::DumpingImage { label: l };
                }
            },
            (ImportPhase::AwaitingImageChoice { .. }, ImportEvent::Chose { choice }) => {
                match choice {
                    CollisionChoice::SkipItem => self.advance(),
                    CollisionChoice::CancelImport => {
                        self.phase = ImportPhase::Cancelled;
                    },
                }
            },
            (ImportPhase::DumpingImage { label }, ImportEvent::ImageDumped) => {
                let l = label.clone();
                self.phase = ImportPhase::CheckingCopyPath { label: l };
            },
            (ImportPhase::CheckingCopyPath { label }, ImportEvent::PathChecked { exists }) => {
                let l = label.clone();
                if exists {
                    self.phase = ImportPhase::AwaitingCopyChoice { label: l };
                } else {
                    self.phase = ImportPhase::CopyingContents { label: l };
                }
            },
            (ImportPhase::AwaitingCopyChoice { .. }, ImportEvent::Chose { choice }) => {
                match choice {
                    CollisionChoice::SkipItem => self.advance(),
                    CollisionChoice::CancelImport => {
                        self.phase = ImportPhase::Cancelled;
                    },
                }
            },
            (ImportPhase::CopyingContents { label }, ImportEvent::ContentsCopied) => {
                self.phase = ImportPhase::EjectingAfterItem;
            },
            (ImportPhase::EjectingAfterItem, ImportEvent::Ejected) => {
                self.advance();
            },
            _ => {},
        }
    }

    /// The action pending in the current state, exactly `action_spec`.
    pub fn current_action(&self) -> (a: ImportAction)
        requires
            session_wf(self@),
        ensures
            a@ == action_spec(self@),
    {
        match &self.phase {
            ImportPhase::ConfirmingInsertion => ImportAction::ConfirmInsertion {
                sub_identifier: self.subs[self.sub].clone(),
                device: self.device.clone(),
            },
            ImportPhase::EjectingForRetry => ImportAction::EjectTray,
            ImportPhase::ReadingLabel => ImportAction::ReadLabel {
                device: self.device.clone(),
            },
            ImportPhase::CheckingImagePath { label } => ImportAction::CheckImagePath {
                path: image_path(
                    self.raw_location.as_str(),
                    self.subs[self.sub].as_str(),
                    label.as_str(),
                ),
            },
            ImportPhase::AwaitingImageChoice { label } => ImportAction::AskImageCollision {
                path: image_path(
                    self.raw_location.as_str(),
                    self.subs[self.sub].as_str(),
                    label.as_str(),
                ),
                sub_identifier: self.subs[self.sub].clone(),
            },
            ImportPhase::DumpingImage { label } => ImportAction::DumpImage {
                device: self.device.clone(),
                label: label.clone(),
                dest: image_path(
                    self.raw_location.as_str(),
                    self.subs[self.sub].as_str(),
                    label.as_str(),
                ),
            },
            ImportPhase::CheckingCopyPath { label } => ImportAction::CheckCopyPath {
                path: copy_path(
                    self.raw_location.as_str(),
                    self.subs[self.sub].as_str(),
                    label.as_str(),
                ),
            },
            ImportPhase::AwaitingCopyChoice { label } => ImportAction::AskCopyCollision {
                path: copy_path(
                    self.raw_location.as_str(),
                    self.subs[self.sub].as_str(),
                    label.as_str(),
                ),
                sub_identifier: self.subs[self.sub].clone(),
            },
            ImportPhase::CopyingContents { label } => ImportAction::CopyContents {
                device: self.device.clone(),
                label: label.clone(),
                dest: copy_path(
                    self.raw_location.as_str(),
                    self.subs[self.sub].as_str(),
                    label.as_str(),
                ),
            },
            ImportPhase::EjectingAfterItem => ImportAction::EjectTray,
            ImportPhase::Complete => ImportAction::Finished,
            ImportPhase::Cancelled => ImportAction::Cancelled,
        }
    }
}

} // verus!
