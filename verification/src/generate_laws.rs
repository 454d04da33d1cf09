//! What holds of every run of a generation.

use vstd::prelude::*;
use crate::generate::{
    generate_begin,
    generate_exit_code,
    generate_next,
    GenerateAction,
    GenerateEvent,
    GenerateModel,
    GeneratePhase,
};
use crate::vars::{collected, is_key_value, pairs_of, parsed_variables};

verus! {

/// What the machine asks for, step by step, when it is told of `events` one
/// after another, beginning in the state `m`.
pub open spec fn generate_actions(m: GenerateModel, events: Seq<GenerateEvent<Seq<char>>>) -> Seq<
    GenerateAction<Seq<char>>,
>
    decreases events.len(),
{
    if events.len() == 0 {
        Seq::empty()
    } else {
        let step = generate_next(m, events[0]);
        seq![step.1] + generate_actions(step.0, events.drop_first())
    }
}

/// Whether none of `actions` looks at, reads or writes a file.
pub open spec fn touches_no_file(actions: Seq<GenerateAction<Seq<char>>>) -> bool {
    forall|i: int| 0 <= i < actions.len() ==> #[trigger] actions[i] is Finish
}

/// Each event is answered by one action.
pub proof fn lemma_generate_actions_len(m: GenerateModel, events: Seq<GenerateEvent<Seq<char>>>)
    ensures
        generate_actions(m, events).len() == events.len(),
    decreases events.len(),
{
    if events.len() > 0 {
        lemma_generate_actions_len(generate_next(m, events[0]).0, events.drop_first());
    }
}

/// Once a run has ended, whatever the machine is told, it touches no file.
pub proof fn lemma_done_touches_no_file(m: GenerateModel, events: Seq<GenerateEvent<Seq<char>>>)
    requires
        m.phase == GeneratePhase::Done,
    ensures
        touches_no_file(generate_actions(m, events)),
    decreases events.len(),
{
    if events.len() > 0 {
        let step = generate_next(m, events[0]);
        let rest = events.drop_first();
        lemma_done_touches_no_file(step.0, rest);
        lemma_generate_actions_len(step.0, rest);
        let later = generate_actions(step.0, rest);
        assert forall|i: int| 0 <= i < generate_actions(m, events).len() implies (
        #[trigger] generate_actions(m, events)[i]) is Finish by {
            if i > 0 {
                assert(generate_actions(m, events)[i] == later[i - 1]);
            }
        }
    }
}

/// A malformed argument is rejected before any file is touched: the run
/// ends where it begins, with exit status 1, and no file is looked at, read
/// or written then or later.
pub proof fn lemma_malformed_argument_rejected(
    output_dir: Option<Seq<char>>,
    template: Option<Seq<char>>,
    args: Seq<Seq<char>>,
    bad: int,
    events: Seq<GenerateEvent<Seq<char>>>,
)
    requires
        0 <= bad < args.len(),
        !is_key_value(args[bad]),
    ensures
        generate_begin(output_dir, template, args).1 matches GenerateAction::Finish(outcome)
            && outcome is InvalidVariable && generate_exit_code(outcome) == 1,
        touches_no_file(generate_actions(generate_begin(output_dir, template, args).0, events)),
{
    assert(parsed_variables(args) is Err);
    lemma_done_touches_no_file(generate_begin(output_dir, template, args).0, events);
}

/// Without variables the template is copied: what is written is the text
/// that was read, character for character.
pub proof fn lemma_no_variables_copy_template(
    output_dir: Option<Seq<char>>,
    template: Option<Seq<char>>,
    text: Seq<char>,
)
    ensures
        ({
            let begin = generate_begin(output_dir, template, Seq::empty());
            let checked = generate_next(begin.0, GenerateEvent::DirChecked(true));
            let read = generate_next(checked.0, GenerateEvent::TemplateRead(text));
            &&& begin.1 == GenerateAction::CheckDir(begin.0.output_dir)
            &&& checked.1 == GenerateAction::ReadTemplate(begin.0.template)
            &&& read.1 == (GenerateAction::WriteOutput { path: begin.0.output, content: text })
        }),
{
    let none = Seq::<Seq<char>>::empty();
    assert(pairs_of(none) =~= Seq::<(Seq<char>, Seq<char>)>::empty());
    assert(collected(pairs_of(none)) =~= Seq::<(Seq<char>, Seq<char>)>::empty());
    assert(parsed_variables(none) == Ok::<Seq<(Seq<char>, Seq<char>)>, Seq<char>>(
        Seq::<(Seq<char>, Seq<char>)>::empty(),
    ));
}

} // verus!
