//! The models that contracts speak of hold all that the values hold.

use crate::cc_build::text_of;
use crate::course::{Action, ActionView, Event, EventView, Plan, Stage, StageView};
use crate::declarations::{
    Capture, Class, ClassView, Closure, ClosureSig, ClosureSigView, ClosureView, Declarations,
};
use crate::generate::{part_views, Origin, Part, PartView, Protocol};
use crate::text::views;
use vstd::prelude::*;

verus! {

/// Whether `models` holds the text of each string in its place.
pub open spec fn are_texts(models: Seq<Seq<char>>, strings: Seq<String>) -> bool {
    &&& models.len() == strings.len()
    &&& forall|i: int| 0 <= i < strings.len() ==> #[trigger] models[i] == strings[i]@
}

/// Whether `model` holds what a part holds.
pub open spec fn is_part(model: PartView, part: Part) -> bool {
    model.text == part.text@ && are_texts(model.warnings, part.warnings@)
}

/// Whether `models` holds what each part holds, in its place.
pub open spec fn are_parts(models: Seq<PartView>, parts: Seq<Part>) -> bool {
    &&& models.len() == parts.len()
    &&& forall|i: int| 0 <= i < parts.len() ==> is_part(#[trigger] models[i], parts[i])
}

/// The models of strings are their texts, and that of an optional string is its text if there is
/// one.
pub proof fn texts_are_modelled(strings: Seq<String>, optional: Option<&str>)
    ensures
        are_texts(views(strings), strings),
        optional matches Some(text) ==> text_of(optional) == Some(text@),
        optional is None ==> text_of(optional) is None,
{
}

/// The models of parts hold their warnings and texts.
pub proof fn parts_are_modelled(parts: Seq<Part>)
    ensures
        are_parts(part_views(parts), parts),
{
}

/// Whether `model` holds what a signature holds.
pub open spec fn is_sig(model: ClosureSigView, sig: ClosureSig) -> bool {
    &&& model.cpp == sig.cpp@
    &&& model.std_body == sig.std_body@
    &&& model.captures.len() == sig.captures@.len()
    &&& forall|i: int|
        0 <= i < sig.captures@.len() ==> {
            &&& (#[trigger] model.captures[i]).mutable == sig.captures@[i].mutable
            &&& model.captures[i].name == sig.captures@[i].name@
            &&& model.captures[i].cpp == sig.captures@[i].cpp@
        }
}

/// Whether `model` holds what a closure holds.
pub open spec fn is_closure(model: ClosureView, closure: Closure) -> bool {
    &&& is_sig(model.sig, closure.sig)
    &&& model.body_str == closure.body_str@
    &&& model.callback_offset == closure.callback_offset
    &&& model.name_hash == closure.name_hash
    &&& model.extern_name == closure.extern_name@
}

/// Whether `model` holds what a class holds.
pub open spec fn is_class(model: ClassView, class: Class) -> bool {
    &&& model.cpp == class.cpp@
    &&& model.line == class.line@
    &&& model.name_hash == class.name_hash
    &&& are_texts(model.derived_traits, class.derived_traits@)
}

/// The model of declarations holds every closure and every class, with all that belongs to them,
/// the snippets and the number of callbacks.
pub proof fn declarations_are_modelled(declarations: Declarations)
    ensures
        declarations@.snippets == declarations.snippets@,
        declarations@.callbacks_count == declarations.callbacks_count,
        declarations@.closures.len() == declarations.closures@.len(),
        declarations@.classes.len() == declarations.classes@.len(),
        forall|i: int|
            0 <= i < declarations.closures@.len() ==> is_closure(
                #[trigger] declarations@.closures[i],
                declarations.closures@[i],
            ),
        forall|i: int|
            0 <= i < declarations.classes@.len() ==> is_class(
                #[trigger] declarations@.classes[i],
                declarations.classes@[i],
            ),
{
}

/// The models of closures, signatures and classes hold all that belongs to them.
pub proof fn members_are_modelled(closure: Closure, sig: ClosureSig, class: Class, capture: Capture)
    ensures
        is_closure(closure@, closure),
        is_sig(sig@, sig),
        is_class(class@, class),
        capture@.mutable == capture.mutable,
        capture@.name == capture.name@,
        capture@.cpp == capture.cpp@,
{
}

/// The models of a protocol, an origin and a plan hold all that belongs to them.
pub proof fn plans_are_modelled(protocol: Protocol, origin: Origin, plan: Plan)
    ensures
        protocol@.file_hash == protocol.file_hash,
        protocol@.magic == protocol.magic@,
        protocol@.version == protocol.version@,
        protocol@.flags == protocol.flags,
        origin@.file == origin.file@,
        origin@.callback_table == origin.callback_table,
        origin@.void_closure == origin.void_closure,
        origin@.value_closure == origin.value_closure,
        origin@.metadata == origin.metadata,
        plan@.crate_root == plan.crate_root,
        plan@.lib_name == plan.lib_name@,
        plan@.exit_on_compile_error == plan.exit_on_compile_error,
        plan@.protocol == plan.protocol@,
        plan@.origin == plan.origin@,
{
}

/// The model of a stage is the same stage, with what it keeps.
pub proof fn stages_are_modelled(stage: Stage)
    ensures
        match stage {
            Stage::Ready => stage@ == StageView::Ready,
            Stage::Locating => stage@ == StageView::Locating,
            Stage::Probing(dir) => stage@ == StageView::Probing(dir),
            Stage::Removing(dir) => stage@ == StageView::Removing(dir),
            Stage::Creating(dir) => stage@ == StageView::Creating(dir),
            Stage::Parsing(dir) => stage@ == StageView::Parsing(dir),
            Stage::Opening(declarations) => stage@ == StageView::Opening(declarations@),
            Stage::Writing { file, rest } => stage@ matches StageView::Writing {
                file: kept,
                rest: models,
            } && kept == file && are_parts(models, rest@),
            Stage::Compiling => stage@ == StageView::Compiling,
            Stage::Over => stage@ == StageView::Over,
        },
{
}

/// Whether `model` is the same outcome, with the text of the error.
pub open spec fn is_outcome(model: Result<(), Seq<char>>, result: Result<(), String>) -> bool {
    match result {
        Ok(_) => model is Ok,
        Err(error) => model matches Err(text) && text == error@,
    }
}

/// The model of an event is the same event, with what it tells.
pub proof fn events_are_modelled(event: Event)
    ensures
        match event {
            Event::Begun => event@ == EventView::Begun,
            Event::Located(dir) => event@ == EventView::Located(dir),
            Event::Probed(exists) => event@ == EventView::Probed(exists),
            Event::Removed(result) => event@ matches EventView::Removed(model) && is_outcome(
                model,
                result,
            ),
            Event::Created(result) => event@ matches EventView::Created(model) && is_outcome(
                model,
                result,
            ),
            Event::Parsed(Ok(declarations)) => event@ matches EventView::Parsed(Ok(model)) && model
                == declarations@,
            Event::Parsed(Err(error)) => event@ matches EventView::Parsed(Err(text)) && text
                == error@,
            Event::Opened(Ok(file)) => event@ matches EventView::Opened(Ok(path)) && path == file,
            Event::Opened(Err(error)) => event@ matches EventView::Opened(Err(text)) && text
                == error@,
            Event::Written(result) => event@ matches EventView::Written(model) && is_outcome(
                model,
                result,
            ),
            Event::Compiled(result) => event@ matches EventView::Compiled(model) && is_outcome(
                model,
                result,
            ),
        },
{
}

/// The model of an action is the same action, with what it is about.
pub proof fn actions_are_modelled(action: Action)
    ensures
        match action {
            Action::Locate(name) => action@ == ActionView::Locate(name@),
            Action::Probe(dir) => action@ == ActionView::Probe(dir),
            Action::RemoveDir(dir) => action@ == ActionView::RemoveDir(dir),
            Action::CreateDir(dir) => action@ == ActionView::CreateDir(dir),
            Action::Parse(root) => action@ == ActionView::Parse(root),
            Action::CreateFile { dir, name } => action@ matches ActionView::CreateFile {
                dir: parent,
                name: text,
            } && parent == dir && text == name@,
            Action::Write(part) => action@ matches ActionView::Write(model) && is_part(model, part),
            Action::Compile(lib_name) => action@ == ActionView::Compile(lib_name@),
            Action::Warn(warnings) => action@ matches ActionView::Warn(texts) && are_texts(
                texts,
                warnings@,
            ),
            Action::Abort(message) => action@ == ActionView::Abort(message@),
            Action::Exit { message, code } => action@ matches ActionView::Exit {
                message: text,
                code: number,
            } && text == message@ && number == code,
            Action::Report(message) => action@ == ActionView::Report(message@),
            Action::Finish => action@ == ActionView::Finish,
        },
{
}

} // verus!
