//! What holds of the course of every build.

use crate::cc_build::{BuildSettings, CompilerFlag, PlatformText};
use crate::config::ConfigView;
use crate::config_laws::the_generated_source_is_compiled;
use crate::course::{
    awaits, compile_error_text, next, next_config, parse_error_text, source_parts, ActionView,
    EventView, PlanView, StageView, ARTIFACTS_DIR, PACKAGE_VERSION, SOURCE_FILE,
};
use crate::declarations::DeclarationsView;
use crate::generate::library_parts;
use crate::warning::warning_lines;
use std::path::PathBuf;
use vstd::prelude::*;

verus! {

/// Where a build stands.
pub struct Run {
    pub config: ConfigView,
    pub stage: StageView,
    /// The work that the last event led to, if there was any event.
    pub action: Option<ActionView>,
}

/// Where a build that starts with `config` stands after `events`.
pub open spec fn run(plan: PlanView, config: ConfigView, events: Seq<EventView>) -> Run
    decreases events.len(),
{
    if events.len() == 0 {
        Run { config, stage: StageView::Ready, action: None }
    } else {
        let before = run(plan, config, events.drop_last());
        let (stage, action) = next(plan, before.stage, events.last());
        Run {
            config: next_config(before.config, before.stage, events.last()),
            stage,
            action: Some(action),
        }
    }
}

/// Whether each of the events was awaited when it came.
pub open spec fn in_order(plan: PlanView, config: ConfigView, events: Seq<EventView>) -> bool
    decreases events.len(),
{
    events.len() == 0 || {
        &&& in_order(plan, config, events.drop_last())
        &&& awaits(run(plan, config, events.drop_last()).stage, events.last())
    }
}

/// How far a build in `stage` is from its end, parts of the source aside.
pub open spec fn stages_left(stage: StageView) -> nat {
    match stage {
        StageView::Ready => 9,
        StageView::Locating => 8,
        StageView::Probing(_) => 7,
        StageView::Removing(_) => 6,
        StageView::Creating(_) => 5,
        StageView::Parsing(_) => 4,
        StageView::Opening(_) => 3,
        StageView::Writing { .. } => 2,
        StageView::Compiling => 1,
        StageView::Over => 0,
    }
}

/// How many parts of the source are still to be handed out.
pub open spec fn parts_left(stage: StageView) -> nat {
    match stage {
        StageView::Writing { rest, .. } => rest.len(),
        _ => 0,
    }
}

/// Every event brings a build closer to its end: to a later stage, or, while the source is written,
/// to a later part of it.
pub proof fn every_event_is_progress(plan: PlanView, stage: StageView, event: EventView)
    requires
        awaits(stage, event),
    ensures
        stages_left(next(plan, stage, event).0) < stages_left(stage) || (stages_left(
            next(plan, stage, event).0,
        ) == stages_left(stage) && parts_left(next(plan, stage, event).0) < parts_left(stage)),
{
}

/// Number of parts of the source for what was parsed, if anything was.
pub open spec fn parts_parsed(plan: PlanView, events: Seq<EventView>) -> nat
    decreases events.len(),
{
    if events.len() == 0 {
        0
    } else {
        match events.last() {
            EventView::Parsed(Ok(declarations)) => source_parts(plan, declarations).len(),
            _ => parts_parsed(plan, events.drop_last()),
        }
    }
}

proof fn there_is_a_part(plan: PlanView, declarations: DeclarationsView)
    ensures
        source_parts(plan, declarations).len() > 0,
{
    reveal(source_parts);
}

proof fn events_so_far(plan: PlanView, config: ConfigView, events: Seq<EventView>)
    requires
        in_order(plan, config, events),
    ensures
        ({
            let stage = run(plan, config, events).stage;
            let parts = parts_parsed(plan, events);
            &&& stages_left(stage) >= 4 ==> parts == 0
            &&& stages_left(stage) >= 3 ==> events.len() + stages_left(stage) <= 9
            &&& stage matches StageView::Opening(declarations) ==> parts == source_parts(
                plan,
                declarations,
            ).len()
            &&& stages_left(stage) < 3 ==> events.len() + stages_left(stage) + parts_left(stage)
                <= 8 + parts
        }),
    decreases events.len(),
{
    if events.len() > 0 {
        let before = events.drop_last();
        events_so_far(plan, config, before);
        let stage = run(plan, config, before).stage;
        if let StageView::Opening(declarations) = stage {
            there_is_a_part(plan, declarations);
        }
    }
}

/// Every build ends: it sees at most eight events, and one more for each part of the source.
pub proof fn every_build_ends(plan: PlanView, config: ConfigView, events: Seq<EventView>)
    requires
        in_order(plan, config, events),
    ensures
        events.len() <= 8 + parts_parsed(plan, events),
{
    events_so_far(plan, config, events);
}

/// Whether a build has nothing more to do after `action`.
pub open spec fn is_last(action: ActionView) -> bool {
    action is Warn || action is Abort || action is Exit || action is Report
        || action is Finish
}

/// A build is over if and only if the work at hand is its last.
pub proof fn over_means_last(plan: PlanView, stage: StageView, event: EventView)
    requires
        awaits(stage, event),
    ensures
        next(plan, stage, event).0 is Over <==> is_last(next(plan, stage, event).1),
{
}

/// Whether `event` tells that the crate was parsed, with these declarations.
pub open spec fn is_parsed(event: EventView, declarations: DeclarationsView) -> bool {
    event matches EventView::Parsed(Ok(parsed)) && parsed == declarations
}

/// Whether `event` tells that the file for the source was created, with this path.
pub open spec fn is_opened(event: EventView, file: PathBuf) -> bool {
    event matches EventView::Opened(Ok(opened)) && opened == file
}

/// Whether `event` tells that a part of the source was written.
pub open spec fn is_written(event: EventView) -> bool {
    event matches EventView::Written(Ok(_))
}

/// Path of the file that was created for the source, if one was.
pub open spec fn opened_file(events: Seq<EventView>) -> Option<PathBuf>
    decreases events.len(),
{
    if events.len() == 0 {
        None
    } else {
        match events.last() {
            EventView::Opened(Ok(file)) => Some(file),
            _ => opened_file(events.drop_last()),
        }
    }
}

/// Whether a build has come to compiling.
pub open spec fn came_to_compiling(
    plan: PlanView,
    config: ConfigView,
    events: Seq<EventView>,
) -> bool {
    run(plan, config, events).stage is Compiling || (events.len() > 0 && events.last() is Compiled)
}

/// A build changes the configuration only in adding the file that was created for the source, and
/// that only when it comes to compiling.
pub proof fn the_configuration_is_kept(
    plan: PlanView,
    config: ConfigView,
    events: Seq<EventView>,
)
    requires
        in_order(plan, config, events),
    ensures
        came_to_compiling(plan, config, events) ==> opened_file(events) is Some,
        run(plan, config, events).config == (if came_to_compiling(plan, config, events) {
            config.with_generated_source(opened_file(events)->0)
        } else {
            config
        }),
        run(plan, config, events).stage matches StageView::Writing { file, .. } ==> opened_file(
            events,
        ) == Some(file),
    decreases events.len(),
{
    if events.len() > 0 {
        the_configuration_is_kept(plan, config, events.drop_last());
    }
}

/// Whether the events from `start` on tell that the crate was parsed, that the file was created,
/// and that the parts of the source for what was parsed were written to it one by one, each when it
/// was handed out.
pub open spec fn writes_what_was_parsed(
    plan: PlanView,
    config: ConfigView,
    events: Seq<EventView>,
    start: int,
    declarations: DeclarationsView,
    file: PathBuf,
) -> bool {
    let parts = source_parts(plan, declarations);
    &&& 0 <= start <= events.len() - 2
    &&& is_parsed(events[start], declarations)
    &&& is_opened(events[start + 1], file)
    &&& forall|i: int| start + 2 <= i < events.len() ==> is_written(#[trigger] events[i])
    &&& forall|i: int|
        start + 2 <= i <= events.len() && i < start + 2 + parts.len() ==> run(
            plan,
            config,
            #[trigger] events.take(i),
        ).action == Some(ActionView::Write(parts[i - start - 2]))
}

proof fn one_more_part(
    plan: PlanView,
    config: ConfigView,
    events: Seq<EventView>,
    start: int,
    declarations: DeclarationsView,
    file: PathBuf,
)
    requires
        events.len() > 0,
        writes_what_was_parsed(plan, config, events.drop_last(), start, declarations, file),
        is_written(events.last()),
        events.len() < start + 2 + source_parts(plan, declarations).len() ==> run(
            plan,
            config,
            events,
        ).action == Some(
            ActionView::Write(source_parts(plan, declarations)[events.len() - start - 2]),
        ),
    ensures
        writes_what_was_parsed(plan, config, events, start, declarations, file),
{
    let before = events.drop_last();
    let parts = source_parts(plan, declarations);
    assert(events[start] == before[start]);
    assert(events[start + 1] == before[start + 1]);
    assert forall|i: int| start + 2 <= i < events.len() implies is_written(
        #[trigger] events[i],
    ) by {
        if i < before.len() {
            assert(events[i] == before[i]);
        }
    }
    assert forall|i: int|
        start + 2 <= i <= events.len() && i < start + 2 + parts.len() implies run(
        plan,
        config,
        #[trigger] events.take(i),
    ).action == Some(ActionView::Write(parts[i - start - 2])) by {
        if i < events.len() {
            assert(events.take(i) =~= before.take(i));
        } else {
            assert(events.take(i) =~= events);
        }
    }
}

proof fn parts_so_far(plan: PlanView, config: ConfigView, events: Seq<EventView>) -> (found: (
    int,
    DeclarationsView,
    PathBuf,
))
    requires
        in_order(plan, config, events),
        run(plan, config, events).stage is Writing || run(plan, config, events).stage is Compiling,
    ensures
        writes_what_was_parsed(plan, config, events, found.0, found.1, found.2),
        run(plan, config, events).stage matches StageView::Writing { file, rest } ==> {
            &&& file == found.2
            &&& events.len() - found.0 - 1 <= source_parts(plan, found.1).len()
            &&& rest == source_parts(plan, found.1).skip(events.len() - found.0 - 1)
        },
        run(plan, config, events).stage is Compiling ==> {
            &&& events.len() == found.0 + 2 + source_parts(plan, found.1).len()
            &&& opened_file(events) == Some(found.2)
        },
    decreases events.len(),
{
    let before = events.drop_last();
    let stage = run(plan, config, before).stage;
    if let StageView::Opening(declarations) = stage {
        there_is_a_part(plan, declarations);
        let start = events.len() - 2;
        let file = events.last()->Opened_0->Ok_0;
        assert(is_parsed(before.last(), declarations));
        assert(events.take(events.len() as int) =~= events);
        assert(source_parts(plan, declarations).drop_first() =~= source_parts(
            plan,
            declarations,
        ).skip(1));
        (start, declarations, file)
    } else {
        let (start, declarations, file) = parts_so_far(plan, config, before);
        let parts = source_parts(plan, declarations);
        let rest = parts.skip(before.len() - start - 1);
        if rest.len() > 0 {
            assert(rest[0] == parts[events.len() - start - 2]);
            assert(rest.drop_first() =~= parts.skip(events.len() - start - 1));
        }
        one_more_part(plan, config, events, start, declarations, file);
        the_configuration_is_kept(plan, config, before);
        (start, declarations, file)
    }
}

/// Whether `event` tells that the directory of the generated files is `dir`.
pub open spec fn is_located(event: EventView, dir: PathBuf) -> bool {
    event == EventView::Located(dir)
}

/// The directory that `action` is about, if any.
pub open spec fn directory_of(action: ActionView) -> Option<PathBuf> {
    match action {
        ActionView::Probe(dir) => Some(dir),
        ActionView::RemoveDir(dir) => Some(dir),
        ActionView::CreateDir(dir) => Some(dir),
        ActionView::CreateFile { dir, .. } => Some(dir),
        _ => None,
    }
}

/// The directory that a build in `stage` goes on with, if any.
spec fn directory_in(stage: StageView) -> Option<PathBuf> {
    match stage {
        StageView::Probing(dir) => Some(dir),
        StageView::Removing(dir) => Some(dir),
        StageView::Creating(dir) => Some(dir),
        StageView::Parsing(dir) => Some(dir),
        _ => None,
    }
}

proof fn directory_is_kept(plan: PlanView, config: ConfigView, events: Seq<EventView>)
    requires
        in_order(plan, config, events),
    ensures
        run(plan, config, events).stage is Ready ==> events.len() == 0,
        run(plan, config, events).stage is Locating ==> events.len() == 1,
        directory_in(run(plan, config, events).stage) matches Some(dir) ==> events.len() >= 2
            && is_located(events[1], dir),
    decreases events.len(),
{
    if events.len() > 0 {
        directory_is_kept(plan, config, events.drop_last());
    }
}

proof fn prefix_in_order(plan: PlanView, config: ConfigView, events: Seq<EventView>, count: int)
    requires
        in_order(plan, config, events),
        0 <= count <= events.len(),
    ensures
        in_order(plan, config, events.take(count)),
    decreases events.len(),
{
    if count < events.len() {
        prefix_in_order(plan, config, events.drop_last(), count);
        assert(events.drop_last().take(count) =~= events.take(count));
    } else {
        assert(events.take(count) =~= events);
    }
}

/// Whatever a build does with a directory, it does with the one that it was told after it had asked
/// for the directory of the generated files: the one that is removed is the one that was looked
/// for, it is created again, and the file for the source is created in it.
pub proof fn there_is_one_directory(plan: PlanView, config: ConfigView, events: Seq<EventView>)
    requires
        in_order(plan, config, events),
    ensures
        run(plan, config, events).action matches Some(action) ==> (directory_of(
            action,
        ) matches Some(dir) ==> {
            &&& events.len() >= 2
            &&& run(plan, config, events.take(1)).action == Some(
                ActionView::Locate(ARTIFACTS_DIR@),
            )
            &&& is_located(events[1], dir)
        }),
{
    if events.len() > 0 {
        directory_is_kept(plan, config, events.drop_last());
    }
    if events.len() >= 2 {
        prefix_in_order(plan, config, events, 2);
        assert(events.take(2).drop_last() =~= events.take(1));
        assert(awaits(run(plan, config, events.take(1)).stage, events[1]));
        assert(events.take(1).drop_last() =~= Seq::<EventView>::empty());
        assert(run(plan, config, Seq::<EventView>::empty()).stage is Ready);
    }
}

/// What is compiled is what was generated from what was parsed. When a build comes to compiling,
/// its last events were that the crate was parsed, that the file of the source was created in the
/// directory of the generated files, and that all parts of the source for what was parsed were
/// written, in their order and with success. That file is what is added to the configuration.
pub proof fn what_is_compiled_was_parsed(
    plan: PlanView,
    config: ConfigView,
    events: Seq<EventView>,
) -> (found: (PathBuf, DeclarationsView, PathBuf))
    requires
        in_order(plan, config, events),
        run(plan, config, events).stage is Compiling,
    ensures
        ({
            let (dir, declarations, file) = found;
            let start = events.len() - 2 - source_parts(plan, declarations).len();
            &&& writes_what_was_parsed(plan, config, events, start, declarations, file)
            &&& is_located(events[1], dir)
            &&& run(plan, config, events.take(start + 1)).action == Some(
                ActionView::CreateFile { dir, name: SOURCE_FILE@ },
            )
            &&& run(plan, config, events).action == Some(ActionView::Compile(plan.lib_name))
            &&& run(plan, config, events).config == config.with_generated_source(file)
        }),
{
    let (start, declarations, file) = parts_so_far(plan, config, events);
    the_configuration_is_kept(plan, config, events);
    let parsed = events.take(start + 1);
    prefix_in_order(plan, config, events, start + 1);
    assert(parsed.last() == events[start]);
    there_is_one_directory(plan, config, parsed);
    let dir = directory_of(run(plan, config, parsed).action->0)->0;
    (dir, declarations, file)
}

/// Whether `event` tells that the directory of the generated files was created.
pub open spec fn is_created(event: EventView) -> bool {
    event matches EventView::Created(Ok(_))
}

/// Whether `event` tells that the directory of the generated files was removed.
pub open spec fn is_removed(event: EventView) -> bool {
    event matches EventView::Removed(Ok(_))
}

/// Whether the first events of a build tell that the directory of the generated files, `dir`, was
/// looked for and, where it existed, removed on request, and nothing else.
pub open spec fn is_cleared(
    plan: PlanView,
    config: ConfigView,
    events: Seq<EventView>,
    dir: PathBuf,
) -> bool {
    &&& events.len() >= 3
    &&& is_located(events[1], dir)
    &&& run(plan, config, events.take(2)).action == Some(ActionView::Probe(dir))
    &&& if events[2] == EventView::Probed(true) {
        &&& events.len() == 4
        &&& run(plan, config, events.take(3)).action == Some(ActionView::RemoveDir(dir))
        &&& is_removed(events[3])
    } else {
        events.len() == 3
    }
}

proof fn cleaning(plan: PlanView, config: ConfigView, events: Seq<EventView>)
    requires
        in_order(plan, config, events),
    ensures
        run(plan, config, events).stage is Ready ==> events.len() == 0,
        run(plan, config, events).stage is Locating ==> events.len() == 1,
        run(plan, config, events).stage matches StageView::Probing(dir) ==> {
            &&& events.len() == 2
            &&& is_located(events[1], dir)
            &&& run(plan, config, events).action == Some(ActionView::Probe(dir))
        },
        run(plan, config, events).stage matches StageView::Removing(dir) ==> {
            &&& events.len() == 3
            &&& is_located(events[1], dir)
            &&& run(plan, config, events.take(2)).action == Some(ActionView::Probe(dir))
            &&& events[2] == EventView::Probed(true)
            &&& run(plan, config, events).action == Some(ActionView::RemoveDir(dir))
        },
        run(plan, config, events).stage matches StageView::Creating(dir) ==> {
            &&& is_cleared(plan, config, events, dir)
            &&& run(plan, config, events).action == Some(ActionView::CreateDir(dir))
        },
    decreases events.len(),
{
    if events.len() > 0 {
        let before = events.drop_last();
        cleaning(plan, config, before);
        if events.len() == 3 {
            assert(events.take(2) =~= before);
        } else if events.len() == 4 {
            assert(events.take(2) =~= before.take(2));
            assert(events.take(3) =~= before);
        }
    }
}

/// Nothing of an earlier build is left when the crate is parsed: the directory of the generated
/// files has just been created, and where there was one before, it was removed first.
pub proof fn leftovers_are_removed(
    plan: PlanView,
    config: ConfigView,
    events: Seq<EventView>,
) -> (dir: PathBuf)
    requires
        in_order(plan, config, events),
        run(plan, config, events).stage is Parsing,
    ensures
        events.len() > 0,
        is_cleared(plan, config, events.drop_last(), dir),
        run(plan, config, events.drop_last()).action == Some(ActionView::CreateDir(dir)),
        is_created(events.last()),
        run(plan, config, events).stage == StageView::Parsing(dir),
{
    cleaning(plan, config, events.drop_last());
    run(plan, config, events).stage->Parsing_0
}

/// A crate that cannot be parsed is no failure of the build: it ends with a warning that shows the
/// error, and neither generates nor compiles anything.
pub proof fn a_parse_error_is_only_reported(
    plan: PlanView,
    config: ConfigView,
    events: Seq<EventView>,
    error: Seq<char>,
)
    requires
        in_order(plan, config, events),
        events.len() > 0,
        events.last() == EventView::Parsed(Err::<DeclarationsView, Seq<char>>(error)),
    ensures
        run(plan, config, events) == (Run {
            config,
            stage: StageView::Over,
            action: Some(ActionView::Warn(warning_lines(parse_error_text(error)))),
        }),
{
    the_configuration_is_kept(plan, config, events);
}

/// A library that cannot be compiled never leads to a panic. The message is printed, and the
/// process ends with a failure if and only if the plan asks for it; else the build counts as a
/// success.
pub proof fn a_compile_error_is_reported(plan: PlanView, error: Seq<char>)
    ensures
        next(plan, StageView::Compiling, EventView::Compiled(Err(error))) == (
            StageView::Over,
            if plan.exit_on_compile_error {
                ActionView::Exit { message: compile_error_text(error), code: 1 }
            } else {
                ActionView::Report(compile_error_text(error))
            },
        ),
{
}

/// The events of a build in which all goes well. The directory of the generated files may exist
/// from an earlier build.
pub open spec fn good_events(
    plan: PlanView,
    dir: PathBuf,
    existed: bool,
    declarations: DeclarationsView,
    file: PathBuf,
) -> Seq<EventView> {
    let done = Ok::<(), Seq<char>>(());
    let probed = seq![EventView::Begun, EventView::Located(dir), EventView::Probed(existed)];
    let cleared = if existed {
        probed.push(EventView::Removed(done))
    } else {
        probed
    };
    let opened = cleared.push(EventView::Created(done)).push(
        EventView::Parsed(Ok(declarations)),
    ).push(EventView::Opened(Ok(file)));
    let written = Seq::new(
        source_parts(plan, declarations).len(),
        |i: int| EventView::Written(done),
    );
    (opened + written).push(EventView::Compiled(done))
}

proof fn one_more(plan: PlanView, config: ConfigView, events: Seq<EventView>, event: EventView)
    requires
        in_order(plan, config, events),
        awaits(run(plan, config, events).stage, event),
    ensures
        in_order(plan, config, events.push(event)),
        run(plan, config, events.push(event)).stage == next(
            plan,
            run(plan, config, events).stage,
            event,
        ).0,
        run(plan, config, events.push(event)).action == Some(
            next(plan, run(plan, config, events).stage, event).1,
        ),
        run(plan, config, events.push(event)).config == next_config(
            run(plan, config, events).config,
            run(plan, config, events).stage,
            event,
        ),
{
    assert(events.push(event).drop_last() =~= events);
}

proof fn all_parts(
    plan: PlanView,
    config: ConfigView,
    events: Seq<EventView>,
    written: Seq<EventView>,
)
    requires
        in_order(plan, config, events),
        run(plan, config, events).stage is Writing,
        written.len() == parts_left(run(plan, config, events).stage) + 1,
        forall|i: int| 0 <= i < written.len() ==> is_written(#[trigger] written[i]),
    ensures
        in_order(plan, config, events + written),
        run(plan, config, events + written).stage is Compiling,
        run(plan, config, events + written).config == run(
            plan,
            config,
            events,
        ).config.with_generated_source(run(plan, config, events).stage->file),
    decreases written.len(),
{
    let event = written[0];
    one_more(plan, config, events, event);
    if written.len() > 1 {
        all_parts(plan, config, events.push(event), written.drop_first());
        assert(events.push(event) + written.drop_first() =~= events + written);
    } else {
        assert(events.push(event) =~= events + written);
    }
}

/// Where the versions agree and all work succeeds, the build succeeds, whatever the crate declares
/// and whether or not there are files from an earlier build.
#[verifier::spinoff_prover]
#[verifier::rlimit(40)]
pub proof fn a_build_succeeds(
    plan: PlanView,
    config: ConfigView,
    dir: PathBuf,
    existed: bool,
    declarations: DeclarationsView,
    file: PathBuf,
)
    requires
        plan.protocol.version == PACKAGE_VERSION@,
    ensures
        in_order(plan, config, good_events(plan, dir, existed, declarations, file)),
        run(plan, config, good_events(plan, dir, existed, declarations, file)) == (Run {
            config: config.with_generated_source(file),
            stage: StageView::Over,
            action: Some(ActionView::Finish),
        }),
{
    let done = Ok::<(), Seq<char>>(());
    let none = Seq::<EventView>::empty();
    let begun = none.push(EventView::Begun);
    one_more(plan, config, none, EventView::Begun);
    let located = begun.push(EventView::Located(dir));
    one_more(plan, config, begun, EventView::Located(dir));
    let probed = located.push(EventView::Probed(existed));
    one_more(plan, config, located, EventView::Probed(existed));
    let cleared = if existed {
        one_more(plan, config, probed, EventView::Removed(done));
        probed.push(EventView::Removed(done))
    } else {
        probed
    };
    let created = cleared.push(EventView::Created(done));
    one_more(plan, config, cleared, EventView::Created(done));
    let parsed = created.push(EventView::Parsed(Ok(declarations)));
    one_more(plan, config, created, EventView::Parsed(Ok(declarations)));
    let opened = parsed.push(EventView::Opened(Ok(file)));
    one_more(plan, config, parsed, EventView::Opened(Ok(file)));
    there_is_a_part(plan, declarations);
    let written = Seq::new(
        source_parts(plan, declarations).len(),
        |i: int| EventView::Written(done),
    );
    all_parts(plan, config, opened, written);
    one_more(plan, config, opened + written, EventView::Compiled(done));
    assert((opened + written).push(EventView::Compiled(done)) =~= good_events(
        plan,
        dir,
        existed,
        declarations,
        file,
    ));
}

/// Whatever fails in the course of a build, the build is over.
pub proof fn a_failure_ends_the_build(plan: PlanView, stage: StageView, event: EventView)
    requires
        awaits(stage, event),
        event matches EventView::Removed(Err(_)) || event matches EventView::Created(Err(_))
            || event matches EventView::Parsed(Err(_)) || event matches EventView::Opened(Err(_))
            || event matches EventView::Written(Err(_)) || event matches EventView::Compiled(
            Err(_),
        ),
    ensures
        next(plan, stage, event).0 is Over,
        next(plan, stage, event).1 is Finish == false,
{
}

/// A build begins where the format of the metadata has the version of this package, and only there.
/// Else it ends with a panic that shows both versions.
pub proof fn only_the_same_version_builds(plan: PlanView)
    ensures
        next(plan, StageView::Ready, EventView::Begun) == (if plan.protocol.version
            == PACKAGE_VERSION@ {
            (StageView::Locating, ActionView::Locate("rust_cpp"@))
        } else {
            (
                StageView::Over,
                ActionView::Abort(
                    "assertion `left == right` failed: Internal Error: mismatched cpp_common and cpp_build versions\n  left: \""@
                        + PACKAGE_VERSION@ + "\"\n right: \""@ + plan.protocol.version + "\""@,
                ),
            )
        }),
{
}

/// While a build goes on, the work at hand is what its stage waits for: with the directory that the
/// stage keeps, the crate root and the library name of the plan.
pub proof fn the_work_fits_the_stage(plan: PlanView, stage: StageView, event: EventView)
    requires
        awaits(stage, event),
    ensures
        ({
            let (after, action) = next(plan, stage, event);
            match after {
                StageView::Ready => false,
                StageView::Locating => action == ActionView::Locate("rust_cpp"@),
                StageView::Probing(dir) => action == ActionView::Probe(dir),
                StageView::Removing(dir) => action == ActionView::RemoveDir(dir),
                StageView::Creating(dir) => action == ActionView::CreateDir(dir),
                StageView::Parsing(_) => action == ActionView::Parse(plan.crate_root),
                StageView::Opening(_) => action matches ActionView::CreateFile { name, .. }
                    && name == "cpp_closures.cpp"@,
                StageView::Writing { .. } => action is Write,
                StageView::Compiling => action == ActionView::Compile(plan.lib_name),
                StageView::Over => is_last(action),
            }
        }),
{
}

/// A build waits for the outcome of the work at hand, be it a success or a failure, and for nothing
/// else. When it is over it waits for nothing.
pub proof fn a_build_waits_for_its_work(stage: StageView, event: EventView)
    ensures
        awaits(stage, event) <==> match event {
            EventView::Begun => stage is Ready,
            EventView::Located(_) => stage is Locating,
            EventView::Probed(_) => stage is Probing,
            EventView::Removed(_) => stage is Removing,
            EventView::Created(_) => stage is Creating,
            EventView::Parsed(_) => stage is Parsing,
            EventView::Opened(_) => stage is Opening,
            EventView::Written(_) => stage is Writing,
            EventView::Compiled(_) => stage is Compiling,
        },
{
}

/// The text of the error, if `event` tells of a failure.
pub open spec fn error_in(event: EventView) -> Option<Seq<char>> {
    match event {
        EventView::Removed(Err(error)) => Some(error),
        EventView::Created(Err(error)) => Some(error),
        EventView::Parsed(Err(error)) => Some(error),
        EventView::Opened(Err(error)) => Some(error),
        EventView::Written(Err(error)) => Some(error),
        EventView::Compiled(Err(error)) => Some(error),
        _ => None,
    }
}

/// A build ends when something failed, when the library was compiled, or at once where the versions
/// differ. It never ends for another reason, and all is well only with a compiled library.
pub proof fn nothing_else_ends_a_build(plan: PlanView, stage: StageView, event: EventView)
    requires
        awaits(stage, event),
    ensures
        next(plan, stage, event).0 is Over <==> error_in(event) is Some || event is Compiled || (
        event is Begun && plan.protocol.version != PACKAGE_VERSION@),
        next(plan, stage, event).1 is Finish <==> event is Compiled && error_in(event) is None,
{
}

/// Each failure is told with the whole text of its error. One with files ends in a panic, a crate
/// that cannot be parsed in a warning, a library that cannot be compiled in a message, and with it
/// the process ends if and only if the plan asks for that.
pub proof fn a_failure_is_told(plan: PlanView, stage: StageView, event: EventView)
    requires
        awaits(stage, event),
        error_in(event) is Some,
    ensures
        ({
            let error = error_in(event)->0;
            let compiling = "\n\nerror occurred: "@ + error + "\n\n\n"@;
            next(plan, stage, event).1 == match event {
                EventView::Removed(_) => ActionView::Abort(
                    "\n-- rust-cpp fatal error --\n\nFailed to remove existing build artifacts from output directory."@
                        + ": "@ + error,
                ),
                EventView::Created(_) => ActionView::Abort(
                    "\n-- rust-cpp fatal error --\n\nFailed to create output object directory."@
                        + ": "@ + error,
                ),
                EventView::Parsed(_) => ActionView::Warn(
                    warning_lines(
                        "-- rust-cpp parse error --\nThere was an error parsing the crate for the rust-cpp build script:\n"@
                            + error
                            + "\nIn order to provide a better error message, the build script will exit successfully, such that rustc can provide an error message."@,
                    ),
                ),
                EventView::Opened(_) => ActionView::Abort(
                    "Unable to generate temporary C++ file"@ + ": "@ + error,
                ),
                EventView::Written(_) => ActionView::Abort(
                    "called `Result::unwrap()` on an `Err` value"@ + ": "@ + error,
                ),
                _ => if plan.exit_on_compile_error {
                    ActionView::Exit { message: compiling, code: 1 }
                } else {
                    ActionView::Report(compiling)
                },
            }
        }),
{
}

/// The source that a build writes is the one that is generated for what was parsed, by the protocol
/// of the plan.
pub proof fn a_build_writes_the_generated_source(plan: PlanView, declarations: DeclarationsView)
    ensures
        source_parts(plan, declarations) == library_parts(
            declarations,
            plan.protocol,
            plan.origin,
        ),
{
    reveal(source_parts);
}

/// When a build comes to compiling, the files of the driver are those that were set before, and
/// after them the file that was created for the source, whatever else was set. A flag is added if
/// and only if no standard was chosen; nothing else changes.
pub proof fn a_build_compiles_its_source(
    plan: PlanView,
    config: ConfigView,
    events: Seq<EventView>,
)
    requires
        in_order(plan, config, events),
        run(plan, config, events).stage is Compiling,
    ensures
        ({
            let s = config.settings;
            let ready = run(plan, config, events).config;
            &&& opened_file(events) is Some
            &&& ready.settings.files == s.files.push(opened_file(events)->0)
            &&& ready.settings.flags == (if config.std_flag_set {
                s.flags
            } else {
                s.flags.push(
                    CompilerFlag {
                        text: PlatformText::Unicode("-std=c++11"@),
                        if_supported: true,
                    },
                )
            })
            &&& ready == (ConfigView {
                settings: BuildSettings {
                    files: ready.settings.files,
                    flags: ready.settings.flags,
                    ..s
                },
                ..config
            })
        }),
{
    the_configuration_is_kept(plan, config, events);
    the_generated_source_is_compiled(config, opened_file(events)->0);
}

} // verus!
