//! What holds of every run of an initialization.

use vstd::prelude::*;
use crate::imports::import_config;
use crate::init::{
    init_exit_code,
    init_next,
    init_stop,
    InitAction,
    InitEvent,
    InitModel,
    InitOutcome,
    InitPhase,
};
use crate::text::is_blank_text;

verus! {

/// What the machine asks for, step by step, when it is told of `events` one
/// after another, beginning in the state `m`.
pub open spec fn init_actions(
    m: InitModel,
    events: Seq<InitEvent<Seq<char>>>,
    home: Option<Seq<char>>,
    platform: Option<Seq<char>>,
) -> Seq<InitAction<Seq<char>>>
    decreases events.len(),
{
    if events.len() == 0 {
        Seq::empty()
    } else {
        let step = init_next(m, events[0], home, platform);
        seq![step.1] + init_actions(step.0, events.drop_first(), home, platform)
    }
}

/// Whether no line among `events` names a folder.
pub open spec fn no_folder_given(events: Seq<InitEvent<Seq<char>>>) -> bool {
    forall|i: int|
        0 <= i < events.len() ==> match #[trigger] events[i] {
            InitEvent::Line(line) => is_blank_text(line),
            _ => true,
        }
}

/// Whether none of `actions` writes the configuration file.
pub open spec fn writes_nothing(actions: Seq<InitAction<Seq<char>>>) -> bool {
    forall|i: int| 0 <= i < actions.len() ==> !(#[trigger] actions[i] is WriteConfig)
}

/// Each event is answered by one action.
pub proof fn lemma_init_actions_len(
    m: InitModel,
    events: Seq<InitEvent<Seq<char>>>,
    home: Option<Seq<char>>,
    platform: Option<Seq<char>>,
)
    ensures
        init_actions(m, events, home, platform).len() == events.len(),
    decreases events.len(),
{
    if events.len() > 0 {
        let step = init_next(m, events[0], home, platform);
        lemma_init_actions_len(step.0, events.drop_first(), home, platform);
    }
}

/// The file is written only when folders have been collected and a blank
/// line ends the collection, and what is written then is the configuration
/// for exactly these folders.
pub proof fn lemma_write_needs_folders(
    m: InitModel,
    event: InitEvent<Seq<char>>,
    home: Option<Seq<char>>,
    platform: Option<Seq<char>>,
)
    requires
        init_next(m, event, home, platform).1 is WriteConfig,
    ensures
        m.phase == InitPhase::Collecting,
        m.folders.len() > 0,
        event matches InitEvent::Line(line) && is_blank_text(line),
        init_next(m, event, home, platform).1 == (InitAction::WriteConfig {
            path: m.config_file,
            content: import_config(m.folders),
        }),
{
}

/// A run in which no folder is given never writes the configuration file:
/// the file stays as it was, and where there was none there is none.
pub proof fn lemma_no_folder_no_write(
    m: InitModel,
    events: Seq<InitEvent<Seq<char>>>,
    home: Option<Seq<char>>,
    platform: Option<Seq<char>>,
)
    requires
        m.folders.len() == 0,
        no_folder_given(events),
    ensures
        writes_nothing(init_actions(m, events, home, platform)),
    decreases events.len(),
{
    if events.len() > 0 {
        let step = init_next(m, events[0], home, platform);
        let rest = events.drop_first();
        assert(match events[0] {
            InitEvent::Line(line) => is_blank_text(line),
            _ => true,
        });
        assert(step.0.folders.len() == 0);
        assert(!(step.1 is WriteConfig));
        assert forall|i: int| 0 <= i < rest.len() implies match #[trigger] rest[i] {
            InitEvent::Line(line) => is_blank_text(line),
            _ => true,
        } by {
            assert(rest[i] == events[i + 1]);
        }
        lemma_no_folder_no_write(step.0, rest, home, platform);
        lemma_init_actions_len(step.0, rest, home, platform);
        let later = init_actions(step.0, rest, home, platform);
        assert forall|i: int| 0 <= i < init_actions(m, events, home, platform).len() implies !(
        #[trigger] init_actions(m, events, home, platform)[i] is WriteConfig) by {
            if i > 0 {
                assert(init_actions(m, events, home, platform)[i] == later[i - 1]);
            }
        }
    }
}

/// Once a run has ended, whatever the machine is told, it writes nothing.
pub proof fn lemma_done_writes_nothing(
    m: InitModel,
    events: Seq<InitEvent<Seq<char>>>,
    home: Option<Seq<char>>,
    platform: Option<Seq<char>>,
)
    requires
        m.phase == InitPhase::Done,
    ensures
        writes_nothing(init_actions(m, events, home, platform)),
    decreases events.len(),
{
    if events.len() > 0 {
        let step = init_next(m, events[0], home, platform);
        let rest = events.drop_first();
        lemma_done_writes_nothing(step.0, rest, home, platform);
        lemma_init_actions_len(step.0, rest, home, platform);
        let later = init_actions(step.0, rest, home, platform);
        assert forall|i: int| 0 <= i < init_actions(m, events, home, platform).len() implies !(
        #[trigger] init_actions(m, events, home, platform)[i] is WriteConfig) by {
            if i > 0 {
                assert(init_actions(m, events, home, platform)[i] == later[i - 1]);
            }
        }
    }
}

/// Where the user declines to replace the existing configuration, the run
/// ends at once, with exit status 0, and the file is not written then or
/// later.
pub proof fn lemma_decline_keeps_file(
    m: InitModel,
    events: Seq<InitEvent<Seq<char>>>,
    home: Option<Seq<char>>,
    platform: Option<Seq<char>>,
)
    requires
        m.phase == InitPhase::Confirming,
    ensures
        init_next(m, InitEvent::Answered(false), home, platform) == init_stop(
            m,
            InitOutcome::KeptExisting,
        ),
        init_exit_code(InitOutcome::KeptExisting) == 0,
        writes_nothing(
            init_actions(m, seq![InitEvent::Answered(false)] + events, home, platform),
        ),
{
    let all = seq![InitEvent::Answered(false)] + events;
    let step = init_next(m, all[0], home, platform);
    assert(all.drop_first() =~= events);
    lemma_done_writes_nothing(step.0, events, home, platform);
    lemma_init_actions_len(step.0, events, home, platform);
    let later = init_actions(step.0, events, home, platform);
    assert forall|i: int| 0 <= i < init_actions(m, all, home, platform).len() implies !(
    #[trigger] init_actions(m, all, home, platform)[i] is WriteConfig) by {
        if i > 0 {
            assert(init_actions(m, all, home, platform)[i] == later[i - 1]);
        }
    }
}

} // verus!
