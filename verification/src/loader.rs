//! The steps of loading a configuration file, as a state machine.
//!
//! The machine never touches the filesystem. A [`Loading`] names the one
//! piece of outside work that is due and the location it concerns; the caller
//! does that work and hands the outcome to [`step`] as an [`Event`].

use crate::error::ConfigError;
use crate::name::kebab;
use crate::path::{ConfigPath, Target};
use crate::template::template_text;
use std::path::PathBuf;
use vstd::prelude::*;

verus! {

/// The outside work that is due.
#[derive(Clone, Copy, Debug, PartialEq, Eq, Structural)]
pub enum Stage {
    /// Find out whether the application's directory exists.
    ProbeDir,
    /// Create the application's directory with all missing ancestors.
    CreateDir,
    /// Find out whether the configuration file exists.
    ProbeFile,
    /// Create the configuration file, empty.
    CreateFile,
    /// Write the template into the file that was just created.
    Render,
    /// Read the whole configuration file as text.
    Read,
}

/// A load that is under way: the work that is due and where.
#[derive(Debug)]
pub struct Loading {
    pub path: ConfigPath,
    pub stage: Stage,
}

/// The outcome of the work that a [`Loading`] asked for.
#[derive(Debug)]
pub enum Event {
    /// A probe found the location.
    Present,
    /// A probe did not find the location.
    Absent,
    /// Creating or rendering succeeded.
    Done,
    /// Creating, rendering or reading failed.
    Failed(std::io::Error),
    /// Reading succeeded, with the file's text.
    Text(String),
}

/// What follows an event.
#[derive(Debug)]
pub enum Step {
    /// More outside work is due.
    Next(Loading),
    /// The load has failed.
    Fail(ConfigError),
    /// Writing the template failed. No error category covers this: the load
    /// cannot go on and has no result.
    Abort(std::io::Error),
    /// The file at `path` was read: `text` is to be parsed.
    Parse { path: PathBuf, text: String },
}

impl Loading {
    /// The directory is dealt with while it is probed or created; from then
    /// on the work concerns the file.
    pub open spec fn wf(self) -> bool {
        self.path.target == if self.stage == Stage::ProbeDir || self.stage == Stage::CreateDir {
            Target::Directory
        } else {
            Target::ConfigFile
        }
    }
}

/// Whether `event` is an outcome of the work that `stage` asks for.
pub open spec fn answers(stage: Stage, event: Event) -> bool {
    match stage {
        Stage::ProbeDir | Stage::ProbeFile => event is Present || event is Absent,
        Stage::CreateDir | Stage::CreateFile | Stage::Render => event is Done || event is Failed,
        Stage::Read => event is Text || event is Failed,
    }
}

/// The transition function: what follows `event` in `state`.
///
/// An event that does not answer the work that is due changes nothing.
pub open spec fn next_step(state: Loading, event: Event) -> Step {
    match (state.stage, event) {
        (Stage::ProbeDir, Event::Present) => Step::Next(
            Loading { path: state.path.file(), stage: Stage::ProbeFile },
        ),
        (Stage::ProbeDir, Event::Absent) => Step::Next(
            Loading { path: state.path, stage: Stage::CreateDir },
        ),
        (Stage::CreateDir, Event::Done) => Step::Next(
            Loading { path: state.path.file(), stage: Stage::ProbeFile },
        ),
        (Stage::CreateDir, Event::Failed(cause)) => Step::Fail(
            ConfigError::CreateFs { source: cause, path: state.path.location() },
        ),
        (Stage::ProbeFile, Event::Present) => Step::Next(
            Loading { path: state.path, stage: Stage::Read },
        ),
        (Stage::ProbeFile, Event::Absent) => Step::Next(
            Loading { path: state.path, stage: Stage::CreateFile },
        ),
        (Stage::CreateFile, Event::Done) => Step::Next(
            Loading { path: state.path, stage: Stage::Render },
        ),
        (Stage::CreateFile, Event::Failed(cause)) => Step::Fail(
            ConfigError::CreateFs { source: cause, path: state.path.location() },
        ),
        (Stage::Render, Event::Done) => Step::Next(Loading { path: state.path, stage: Stage::Read }),
        (Stage::Render, Event::Failed(cause)) => Step::Abort(cause),
        (Stage::Read, Event::Text(text)) => Step::Parse { path: state.path.location(), text },
        (Stage::Read, Event::Failed(cause)) => Step::Fail(
            ConfigError::ReadConfig { source: cause, path: state.path.location() },
        ),
        _ => Step::Next(state),
    }
}

/// Begins a load of the configuration of `app_name` below `base`: the first
/// thing to find out is whether the application's directory exists.
pub fn start(app_name: &str, base: PathBuf) -> (out: Loading)
    ensures
        out.wf(),
        out.stage == Stage::ProbeDir,
        out.path.base == base,
        out.path.app_dir@ == kebab(app_name@),
        out.path.segments() == seq![kebab(app_name@)],
{
    Loading { path: ConfigPath::app_dir(app_name, base), stage: Stage::ProbeDir }
}

/// Takes the outcome of the work that `state` asked for and decides what
/// follows.
pub fn step(state: Loading, event: Event) -> (out: Step)
    ensures
        out == next_step(state, event),
        state.wf() ==> (out matches Step::Next(next) ==> next.wf()),
{
    match state.stage {
        Stage::ProbeDir => match event {
            Event::Present => Step::Next(
                Loading { path: state.path.config_file(), stage: Stage::ProbeFile },
            ),
            Event::Absent => Step::Next(Loading { path: state.path, stage: Stage::CreateDir }),
            _ => Step::Next(state),
        },
        Stage::CreateDir => match event {
            Event::Done => Step::Next(
                Loading { path: state.path.config_file(), stage: Stage::ProbeFile },
            ),
            Event::Failed(cause) => Step::Fail(
                ConfigError::CreateFs { source: cause, path: state.path.on_disk() },
            ),
            _ => Step::Next(state),
        },
        Stage::ProbeFile => match event {
            Event::Present => Step::Next(Loading { path: state.path, stage: Stage::Read }),
            Event::Absent => Step::Next(Loading { path: state.path, stage: Stage::CreateFile }),
            _ => Step::Next(state),
        },
        Stage::CreateFile => match event {
            Event::Done => Step::Next(Loading { path: state.path, stage: Stage::Render }),
            Event::Failed(cause) => Step::Fail(
                ConfigError::CreateFs { source: cause, path: state.path.on_disk() },
            ),
            _ => Step::Next(state),
        },
        Stage::Render => match event {
            Event::Done => Step::Next(Loading { path: state.path, stage: Stage::Read }),
            Event::Failed(cause) => Step::Abort(cause),
            _ => Step::Next(state),
        },
        Stage::Read => match event {
            Event::Text(text) => Step::Parse { path: state.path.on_disk(), text },
            Event::Failed(cause) => Step::Fail(
                ConfigError::ReadConfig { source: cause, path: state.path.on_disk() },
            ),
            _ => Step::Next(state),
        },
    }
}

/// The result of a load whose file at `path` held `text`, given what the
/// parser made of that text: the parsed value, or the parser's diagnostic
/// together with the path and the text that it refused.
pub open spec fn parse_outcome<C>(
    path: PathBuf,
    text: String,
    parsed: Result<C, toml::de::Error>,
) -> Result<C, ConfigError> {
    match parsed {
        Ok(value) => Ok(value),
        Err(cause) => Err(ConfigError::Deserialize { source: cause, path, toml: text }),
    }
}

/// Ends a load with what the parser made of the file's text.
pub fn finish<C>(path: PathBuf, text: String, parsed: Result<C, toml::de::Error>) -> (out:
    Result<C, ConfigError>)
    ensures
        out == parse_outcome(path, text, parsed),
{
    match parsed {
        Ok(value) => Ok(value),
        Err(cause) => Err(ConfigError::Deserialize { source: cause, path, toml: text }),
    }
}

/// The place of a stage in the order in which a load goes through them.
pub open spec fn rank(stage: Stage) -> nat {
    match stage {
        Stage::ProbeDir => 0,
        Stage::CreateDir => 1,
        Stage::ProbeFile => 2,
        Stage::CreateFile => 3,
        Stage::Render => 4,
        Stage::Read => 5,
    }
}

/// What comes of feeding `events` to the machine one after the other, from
/// `state` on. Events that arrive after the load has come to an end are not
/// looked at.
pub open spec fn run(state: Loading, events: Seq<Event>) -> Step
    decreases events.len(),
{
    if events.len() == 0 {
        Step::Next(state)
    } else {
        match next_step(state, events[0]) {
            Step::Next(next) => run(next, events.drop_first()),
            settled => settled,
        }
    }
}

/// The stages at which work was asked for while `events` were fed to the
/// machine from `state` on: the stage of `state`, then the stage after each
/// event, up to the event that ended the load.
pub open spec fn visited(state: Loading, events: Seq<Event>) -> Seq<Stage>
    decreases events.len(),
{
    if events.len() == 0 {
        seq![state.stage]
    } else {
        match next_step(state, events[0]) {
            Step::Next(next) => seq![state.stage] + visited(next, events.drop_first()),
            _ => seq![state.stage],
        }
    }
}

/// Whether each of `events`, fed to the machine from `state` on, answers the
/// work that is due when it arrives.
pub open spec fn well_answered(state: Loading, events: Seq<Event>) -> bool
    decreases events.len(),
{
    events.len() > 0 ==> {
        &&& answers(state.stage, events[0])
        &&& next_step(state, events[0]) matches Step::Next(next) ==> well_answered(
            next,
            events.drop_first(),
        )
    }
}

/// The events of a load that finds neither directory nor file, creates both,
/// renders the template and reads `text` back.
pub open spec fn first_run(text: String) -> Seq<Event> {
    seq![Event::Absent, Event::Done, Event::Absent, Event::Done, Event::Done, Event::Text(text)]
}

/// The events of a load that finds directory and file in place and reads
/// `text`.
pub open spec fn later_run(text: String) -> Seq<Event> {
    seq![Event::Present, Event::Present, Event::Text(text)]
}

/// A step keeps the base directory and the application's directory name, and
/// never goes back to an earlier stage.
pub proof fn step_moves_forward(state: Loading, event: Event)
    ensures
        next_step(state, event) matches Step::Next(next) ==> {
            &&& next.path.base == state.path.base
            &&& next.path.app_dir == state.path.app_dir
            &&& rank(next.stage) >= rank(state.stage)
        },
{
}

/// An event that answers the work that is due ends the load or moves it to a
/// later stage; any other event leaves the state as it is.
pub proof fn answer_advances(state: Loading, event: Event)
    ensures
        answers(state.stage, event) ==> (next_step(state, event) matches Step::Next(next) ==> rank(
            next.stage,
        ) > rank(state.stage)),
        !answers(state.stage, event) ==> next_step(state, event) == Step::Next(state),
{
}

/// Work on the file begins only once the directory is known to exist: the
/// machine turns to the file after a probe that found the directory or after
/// the directory was created, and on nothing else.
pub proof fn file_follows_directory(state: Loading, event: Event)
    requires
        rank(state.stage) < 2,
        next_step(state, event) matches Step::Next(next) && rank(next.stage) >= 2,
    ensures
        (state.stage == Stage::ProbeDir && event is Present) || (state.stage == Stage::CreateDir
            && event is Done),
        next_step(state, event) == Step::Next(
            Loading { path: state.path.file(), stage: Stage::ProbeFile },
        ),
{
}

/// The template is rendered only into a file that was just created, and the
/// file is read only if it was found in place or after its template was
/// rendered.
pub proof fn render_follows_creation(state: Loading, event: Event)
    ensures
        next_step(state, event) matches Step::Next(next) ==> {
            &&& next.stage == Stage::Render && state.stage != Stage::Render ==> state.stage
                == Stage::CreateFile && event is Done
            &&& next.stage == Stage::Read && state.stage != Stage::Read ==> (state.stage
                == Stage::ProbeFile && event is Present) || (state.stage == Stage::Render
                && event is Done)
        },
{
}

/// Every failure is reported with the location that the failed work
/// concerned, and with the cause that the event carried.
pub proof fn failure_names_its_location(state: Loading, event: Event)
    ensures
        next_step(state, event) matches Step::Fail(e) ==> {
            &&& event matches Event::Failed(cause)
            &&& state.stage == Stage::Read ==> e == (ConfigError::ReadConfig {
                source: cause,
                path: state.path.location(),
            })
            &&& state.stage != Stage::Read ==> e == (ConfigError::CreateFs {
                source: cause,
                path: state.path.location(),
            })
        },
        next_step(state, event) is Fail <==> event is Failed && (state.stage == Stage::CreateDir
            || state.stage == Stage::CreateFile || state.stage == Stage::Read),
{
}

/// A load that finds nothing in place creates the directory and the file,
/// renders the template once, and then has the text parsed that it read from
/// the file.
pub proof fn first_run_parses_what_was_rendered(state: Loading, text: String)
    requires
        state.stage == Stage::ProbeDir,
    ensures
        run(state, first_run(text)) == (Step::Parse { path: state.path.file().location(), text }),
        visited(state, first_run(text)) == seq![
            Stage::ProbeDir,
            Stage::CreateDir,
            Stage::ProbeFile,
            Stage::CreateFile,
            Stage::Render,
            Stage::Read,
        ],
{
    let events = first_run(text);
    let s1 = Loading { path: state.path, stage: Stage::CreateDir };
    let s2 = Loading { path: state.path.file(), stage: Stage::ProbeFile };
    let s3 = Loading { path: state.path.file(), stage: Stage::CreateFile };
    let s4 = Loading { path: state.path.file(), stage: Stage::Render };
    let s5 = Loading { path: state.path.file(), stage: Stage::Read };
    let e1 = events.drop_first();
    let e2 = e1.drop_first();
    let e3 = e2.drop_first();
    let e4 = e3.drop_first();
    let e5 = e4.drop_first();
    assert(run(s5, e5) == (Step::Parse { path: state.path.file().location(), text })) by {
        assert(e5.len() == 1);
        assert(e5[0] == Event::Text(text));
    }
    assert(run(s4, e4) == run(s5, e5));
    assert(run(s3, e3) == run(s4, e4));
    assert(run(s2, e2) == run(s3, e3));
    assert(run(s1, e1) == run(s2, e2));
    assert(run(state, events) == run(s1, e1));
    assert(visited(s5, e5) == seq![Stage::Read]);
    assert(visited(s4, e4) =~= seq![Stage::Render] + visited(s5, e5));
    assert(visited(s3, e3) =~= seq![Stage::CreateFile] + visited(s4, e4));
    assert(visited(s2, e2) =~= seq![Stage::ProbeFile] + visited(s3, e3));
    assert(visited(s1, e1) =~= seq![Stage::CreateDir] + visited(s2, e2));
    assert(visited(state, events) =~= seq![Stage::ProbeDir] + visited(s1, e1));
    assert(visited(state, events) =~= seq![
        Stage::ProbeDir,
        Stage::CreateDir,
        Stage::ProbeFile,
        Stage::CreateFile,
        Stage::Render,
        Stage::Read,
    ]);
}

/// A load that finds directory and file in place asks for no creation and no
/// rendering: it goes from probing straight to reading.
pub proof fn later_run_only_reads(state: Loading, text: String)
    requires
        state.stage == Stage::ProbeDir,
    ensures
        next_step(state, Event::Present) == Step::Next(
            Loading { path: state.path.file(), stage: Stage::ProbeFile },
        ),
        next_step(Loading { path: state.path.file(), stage: Stage::ProbeFile }, Event::Present)
            == Step::Next(Loading { path: state.path.file(), stage: Stage::Read }),
        run(state, later_run(text)) == (Step::Parse { path: state.path.file().location(), text }),
        visited(state, later_run(text)) == seq![Stage::ProbeDir, Stage::ProbeFile, Stage::Read],
{
    let events = later_run(text);
    let s1 = Loading { path: state.path.file(), stage: Stage::ProbeFile };
    let s2 = Loading { path: state.path.file(), stage: Stage::Read };
    let e1 = events.drop_first();
    let e2 = e1.drop_first();
    assert(run(s2, e2) == (Step::Parse { path: state.path.file().location(), text })) by {
        assert(e2.len() == 1);
        assert(e2[0] == Event::Text(text));
    }
    assert(run(s1, e1) == run(s2, e2));
    assert(run(state, events) == run(s1, e1));
    assert(visited(s2, e2) == seq![Stage::Read]);
    assert(visited(s1, e1) =~= seq![Stage::ProbeFile] + visited(s2, e2));
    assert(visited(state, events) =~= seq![Stage::ProbeDir] + visited(s1, e1));
    assert(visited(state, events) =~= seq![Stage::ProbeDir, Stage::ProbeFile, Stage::Read]);
}

/// No work is done twice: as long as every event answers the work that was
/// due, the stages of a load come in strictly rising order. So the directory
/// is dealt with before the file, a file is created before its template is
/// rendered, the template is rendered at most once, and nothing is created or
/// rendered after the file was read.
pub proof fn work_is_never_repeated(state: Loading, events: Seq<Event>)
    requires
        well_answered(state, events),
    ensures
        visited(state, events).len() >= 1,
        visited(state, events).len() <= events.len() + 1,
        visited(state, events)[0] == state.stage,
        forall|i: int, j: int|
            0 <= i < j < visited(state, events).len() ==> rank(
                #[trigger] visited(state, events)[i],
            ) < rank(#[trigger] visited(state, events)[j]),
    decreases events.len(),
{
    if events.len() > 0 {
        if let Step::Next(next) = next_step(state, events[0]) {
            let rest = visited(next, events.drop_first());
            work_is_never_repeated(next, events.drop_first());
            answer_advances(state, events[0]);
            let all = visited(state, events);
            assert(all =~= seq![state.stage] + rest);
            assert forall|i: int, j: int| 0 <= i < j < all.len() implies rank(#[trigger] all[i])
                < rank(#[trigger] all[j]) by {
                assert(all[j] == rest[j - 1]);
                if i == 0 {
                    if j > 1 {
                        assert(rank(rest[0]) < rank(rest[j - 1]));
                    }
                } else {
                    assert(all[i] == rest[i - 1]);
                }
            }
        }
    }
}

/// Loading again gives what the first load gave: the load that created the
/// file and a later load that finds it hand the same text at the same path to
/// the parser, so that the same parse ends both alike.
pub proof fn repeated_load_agrees<C>(
    state: Loading,
    text: String,
    parsed: Result<C, toml::de::Error>,
)
    requires
        state.stage == Stage::ProbeDir,
    ensures
        run(state, first_run(text)) == run(state, later_run(text)),
        run(state, later_run(text)) matches Step::Parse { path, text: read } && parse_outcome(
            path,
            read,
            parsed,
        ) == parse_outcome(state.path.file().location(), text, parsed),
{
    first_run_parses_what_was_rendered(state, text);
    later_run_only_reads(state, text);
}

/// A text that the parser refuses comes back in the error, unchanged, with
/// the path of the file; a text that it accepts gives the parsed value and
/// nothing else.
pub proof fn parse_failure_carries_text<C>(
    path: PathBuf,
    text: String,
    parsed: Result<C, toml::de::Error>,
)
    ensures
        parsed is Err ==> (parse_outcome(path, text, parsed) matches Err(
            ConfigError::Deserialize { source, path: p, toml },
        ) && p == path && toml == text && source == parsed->Err_0),
        parsed matches Ok(value) ==> parse_outcome(path, text, parsed) == Ok::<C, ConfigError>(
            value,
        ),
{
}

/// A first load whose template only lists the fields `names`, and whose
/// parser refuses that text, ends in `Deserialize` at the configuration file,
/// and the text in the error is the template: one line per field, in order.
pub proof fn unfilled_template_comes_back<C>(
    state: Loading,
    names: Seq<Seq<char>>,
    text: String,
    cause: toml::de::Error,
)
    requires
        state.stage == Stage::ProbeDir,
        text@ == template_text(names),
    ensures
        run(state, first_run(text)) matches Step::Parse { path, text: read } && (parse_outcome(
            path,
            read,
            Err::<C, toml::de::Error>(cause),
        ) matches Err(ConfigError::Deserialize { source, path: at, toml }) && source == cause && at
            == state.path.file().location() && toml@ == template_text(names)),
{
    first_run_parses_what_was_rendered(state, text);
}

} // verus!
