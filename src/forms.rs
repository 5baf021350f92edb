//! Text forms that the user edits in an external editor, how their answers
//! are read back, and the answers to yes/no prompts.
use vstd::prelude::*;
use vstd::string::*;

use crate::app::AsyncState;
use crate::keg::{Engine, Wrapper};
use crate::text::{lines_of, pairs_view, split_lines, trim, trimmed};

verus! {

/// The opening of the winetricks selection form.
pub const WINETRICKS_HEADER: &'static str = "# Uncomment each winetrick to install\n# Save and quit your editor to select\n\n";

/// The opening of the keg creator form.
pub const CREATOR_HEADER: &'static str = "# Uncomment the engine and wrapper to use\n# Save and quit your editor to select\n# Select nothing to quit\n# If you don't see new engines or wrappers here, reopen kegtui\n\n";

/// One commented-out assignment `# kind.name = "description"`.
pub open spec fn commented_entry(kind: Seq<char>, name: Seq<char>, description: Seq<char>) -> Seq<char> {
    "# "@ + kind + "."@ + name + " = \""@ + description + "\"\n"@
}

/// The commented-out assignments of `entries`, in order.
pub open spec fn commented_entries(kind: Seq<char>, entries: Seq<(Seq<char>, Seq<char>)>) -> Seq<char>
    decreases entries.len(),
{
    if entries.len() == 0 {
        Seq::empty()
    } else {
        commented_entries(kind, entries.drop_last()) + commented_entry(kind, entries.last().0, entries.last().1)
    }
}

/// One commented-out line per path, in order.
pub open spec fn commented_paths(paths: Seq<Seq<char>>) -> Seq<char>
    decreases paths.len(),
{
    if paths.len() == 0 {
        Seq::empty()
    } else {
        commented_paths(paths.drop_last()) + "# "@ + paths.last() + "\n"@
    }
}

fn append_entries(out: &mut String, kind: &str, entries: &Vec<(String, String)>)
    ensures
        final(out)@ == old(out)@ + commented_entries(kind@, pairs_view(entries@)),
{
    let ghost ev = pairs_view(entries@);
    let ghost start = out@;
    let mut i: usize = 0;
    while i < entries.len()
        invariant
            i <= entries@.len(),
            ev == pairs_view(entries@),
            out@ == start + commented_entries(kind@, ev.subrange(0, i as int)),
        decreases entries@.len() - i,
    {
        assert(ev.subrange(0, i + 1).drop_last() =~= ev.subrange(0, i as int));
        let ghost before = out@;
        out.append("# ");
        out.append(kind);
        out.append(".");
        out.append(entries[i].0.as_str());
        out.append(" = \"");
        out.append(entries[i].1.as_str());
        out.append("\"\n");
        assert(out@ =~= before + commented_entry(kind@, ev[i as int].0, ev[i as int].1));
        i += 1;
    }
    assert(ev.subrange(0, entries@.len() as int) =~= ev);
}

/// The winetricks selection form: every verb of each listing as a
/// commented-out assignment, apps first, then DLLs, fonts and settings.
pub fn winetricks_template(
    apps: &Vec<(String, String)>,
    dlls: &Vec<(String, String)>,
    fonts: &Vec<(String, String)>,
    settings: &Vec<(String, String)>,
) -> (r: String)
    ensures
        r@ == WINETRICKS_HEADER@ + commented_entries("app"@, pairs_view(apps@)) + commented_entries(
            "dll"@,
            pairs_view(dlls@),
        ) + commented_entries("font"@, pairs_view(fonts@)) + commented_entries("setting"@, pairs_view(settings@)),
{
    let mut out = WINETRICKS_HEADER.to_owned();
    append_entries(&mut out, "app", apps);
    append_entries(&mut out, "dll", dlls);
    append_entries(&mut out, "font", fonts);
    append_entries(&mut out, "setting", settings);
    out
}

/// The keg creator form: the header, one commented-out line per engine, an
/// empty line, and one commented-out line per wrapper template.
pub fn creator_template(state: &AsyncState) -> (r: String)
    ensures
        r@ == CREATOR_HEADER@ + commented_paths(state.engines@.map_values(|e: Engine| e.path@)) + "\n"@
            + commented_paths(state.wrappers@.map_values(|w: Wrapper| w.path@)),
{
    let mut out = CREATOR_HEADER.to_owned();
    let ghost ev = state.engines@.map_values(|e: Engine| e.path@);
    let ghost start = out@;
    let mut i: usize = 0;
    while i < state.engines.len()
        invariant
            i <= state.engines@.len(),
            ev == state.engines@.map_values(|e: Engine| e.path@),
            out@ == start + commented_paths(ev.subrange(0, i as int)),
        decreases state.engines@.len() - i,
    {
        assert(ev.subrange(0, i + 1).drop_last() =~= ev.subrange(0, i as int));
        let ghost before = out@;
        out.append("# ");
        out.append(state.engines[i].path.as_str());
        out.append("\n");
        assert(out@ =~= before + "# "@ + ev[i as int] + "\n"@);
        i += 1;
    }
    assert(ev.subrange(0, state.engines@.len() as int) =~= ev);
    out.append("\n");
    let ghost wv = state.wrappers@.map_values(|w: Wrapper| w.path@);
    let ghost middle = out@;
    let mut i: usize = 0;
    while i < state.wrappers.len()
        invariant
            i <= state.wrappers@.len(),
            wv == state.wrappers@.map_values(|w: Wrapper| w.path@),
            out@ == middle + commented_paths(wv.subrange(0, i as int)),
        decreases state.wrappers@.len() - i,
    {
        assert(wv.subrange(0, i + 1).drop_last() =~= wv.subrange(0, i as int));
        let ghost before = out@;
        out.append("# ");
        out.append(state.wrappers[i].path.as_str());
        out.append("\n");
        assert(out@ =~= before + "# "@ + wv[i as int] + "\n"@);
        i += 1;
    }
    assert(wv.subrange(0, state.wrappers@.len() as int) =~= wv);
    assert(out@ =~= CREATOR_HEADER@ + commented_paths(ev) + "\n"@ + commented_paths(wv));
    out
}

/// The lines of a returned form that are left uncommented: trimmed, neither
/// empty nor starting with `#`, in order.
pub open spec fn chosen_lines(lines: Seq<Seq<char>>) -> Seq<Seq<char>>
    decreases lines.len(),
{
    if lines.len() == 0 {
        Seq::empty()
    } else {
        let rest = chosen_lines(lines.drop_last());
        let t = trimmed(lines.last());
        if t.len() > 0 && t[0] != '#' {
            rest.push(t)
        } else {
            rest
        }
    }
}

/// What the returned keg creator form asks for.
pub enum CreatorChoice {
    /// Nothing was uncommented.
    Quit,
    /// Exactly two lines were uncommented: an engine, then a wrapper.
    Pick { engine: String, wrapper: String },
    /// Any other number of lines: the form is shown again.
    Retry,
}

/// Reads the returned keg creator form.
pub fn parse_creator_choice(text: &str) -> (r: CreatorChoice)
    ensures
        ({
            let chosen = chosen_lines(lines_of(text@));
            match r {
                CreatorChoice::Quit => chosen.len() == 0,
                CreatorChoice::Pick { engine, wrapper } => chosen.len() == 2 && engine@ == chosen[0]
                    && wrapper@ == chosen[1],
                CreatorChoice::Retry => chosen.len() != 0 && chosen.len() != 2,
            }
        }),
{
    let lines = split_lines(text);
    let ghost lv = lines@.map_values(|x: String| x@);
    let mut chosen: Vec<String> = Vec::new();
    let mut i: usize = 0;
    while i < lines.len()
        invariant
            i <= lines@.len(),
            lv == lines@.map_values(|x: String| x@),
            lv == lines_of(text@),
            chosen@.map_values(|x: String| x@) == chosen_lines(lv.subrange(0, i as int)),
        decreases lines@.len() - i,
    {
        assert(lv.subrange(0, i + 1).drop_last() =~= lv.subrange(0, i as int));
        let t = trim(lines[i].as_str());
        if t.as_str().unicode_len() > 0 && t.as_str().get_char(0) != '#' {
            let ghost before = chosen@;
            chosen.push(t);
            assert(chosen@.map_values(|x: String| x@) =~= before.map_values(|x: String| x@).push(
                chosen@.last()@,
            ));
        }
        i += 1;
    }
    assert(lv.subrange(0, lines@.len() as int) =~= lv);
    let ghost cv = chosen@.map_values(|x: String| x@);
    if chosen.len() == 0 {
        CreatorChoice::Quit
    } else if chosen.len() == 2 {
        let wrapper = chosen.pop().unwrap();
        let engine = chosen.pop().unwrap();
        assert(cv[0] == engine@ && cv[1] == wrapper@);
        CreatorChoice::Pick { engine, wrapper }
    } else {
        CreatorChoice::Retry
    }
}

/// An answer to a yes/no prompt.
#[derive(Clone, Copy, PartialEq, Eq, Structural, Debug)]
pub enum Answer {
    Yes,
    No,
    Quit,
    /// Anything else: the prompt is asked again.
    Unclear,
}

pub open spec fn answer_of(line: Seq<char>) -> Answer {
    let t = trimmed(line);
    if t == seq!['y'] || t == seq!['Y'] {
        Answer::Yes
    } else if t == seq!['n'] || t == seq!['N'] {
        Answer::No
    } else if t == seq!['q'] {
        Answer::Quit
    } else {
        Answer::Unclear
    }
}

/// Reads an answer: `y` or `Y`, `n` or `N`, or `q`, with white space around
/// it ignored.
pub fn classify_answer(line: &str) -> (r: Answer)
    ensures
        r == answer_of(line@),
{
    let t = trim(line);
    let s = t.as_str();
    if s.unicode_len() != 1 {
        assert(t@ != seq!['y'] && t@ != seq!['Y'] && t@ != seq!['n'] && t@ != seq!['N'] && t@ != seq!['q']);
        return Answer::Unclear;
    }
    let c = s.get_char(0);
    assert(t@ =~= seq![c]);
    if c == 'y' || c == 'Y' {
        Answer::Yes
    } else if c == 'n' || c == 'N' {
        Answer::No
    } else if c == 'q' {
        Answer::Quit
    } else {
        Answer::Unclear
    }
}

} // verus!
