//! Slash commands typed in the composer: recognizing the query, matching it
//! against the command catalog, completing it, and splitting arguments.
use vstd::prelude::*;
use crate::text::{
    chars_of, has_ws, is_ws, push_range, push_str, range_has_ws, range_starts_with, skip_ws,
    string_from, string_of, trim, trim_range, trim_start,
};

verus! {

broadcast use vstd::string::group_string_axioms;

/// A slash command that the composer can run.
#[derive(Debug, Clone, PartialEq, Eq)]
pub struct CommandDescriptor {
    pub name: String,
    pub description: Option<String>,
    pub argument_hint: Option<String>,
    pub source: String,
    pub model: Option<String>,
    pub agent: Option<String>,
    pub has_shell_includes: bool,
    pub has_url_includes: bool,
}

/// The text after the `/` of a slash command being typed: `input` must
/// start (after leading whitespace) with exactly one `/` and hold no line
/// break after it.
pub open spec fn slash_query_spec(input: Seq<char>) -> Option<Seq<char>> {
    let t = trim_start(input);
    if t.len() == 0 || t[0] != '/' || (t.len() >= 2 && t[1] == '/') {
        None
    } else {
        let q = t.subrange(1, t.len() as int);
        if exists|i: int| 0 <= i < q.len() && q[i] == '\n' {
            None
        } else {
            Some(q)
        }
    }
}

/// The start of the query inside `v`, when `v` is a slash query.
fn slash_query_start(v: &Vec<char>) -> (r: Option<usize>)
    ensures
        match r {
            Some(i) => 1 <= i <= v@.len() && slash_query_spec(v@) == Some(
                v@.subrange(i as int, v@.len() as int),
            ),
            None => slash_query_spec(v@) is None,
        },
{
    let a = skip_ws(v, 0, v.len());
    assert(v@.subrange(0, v@.len() as int) =~= v@);
    let ghost t = v@.subrange(a as int, v@.len() as int);
    if a == v.len() || v[a] != '/' || (v.len() - a >= 2 && v[a + 1] == '/') {
        proof {
            if t.len() > 0 {
                assert(t[0] == v@[a as int]);
            }
            if t.len() >= 2 {
                assert(t[1] == v@[a + 1]);
            }
        }
        return None;
    }
    assert(t[0] == v@[a as int]);
    proof {
        if t.len() >= 2 {
            assert(t[1] == v@[a + 1]);
        }
    }
    let ghost q = t.subrange(1, t.len() as int);
    assert(q =~= v@.subrange(a + 1, v@.len() as int));
    match crate::text::find_char(v, a + 1, v.len(), '\n') {
        Some(j) => {
            assert(q[j - a - 1] == '\n');
            None
        },
        None => {
            assert forall|i: int| 0 <= i < q.len() implies q[i] != '\n' by {
                assert(q[i] == v@[a + 1 + i]);
            }
            Some(a + 1)
        },
    }
}

pub fn slash_query(input: &str) -> (r: Option<String>)
    ensures
        match r {
            Some(q) => slash_query_spec(input@) == Some(q@),
            None => slash_query_spec(input@) is None,
        },
{
    let v = chars_of(input);
    match slash_query_start(&v) {
        Some(i) => Some(string_of(&v, i, v.len())),
        None => None,
    }
}

/// The command menu shows while the command name is being typed: a slash
/// query with no whitespace yet.
pub open spec fn shows_menu(input: Seq<char>) -> bool {
    match slash_query_spec(input) {
        Some(q) => !has_ws(q),
        None => false,
    }
}

pub fn should_show_menu(input: &str) -> (r: bool)
    ensures
        r == shows_menu(input@),
{
    let v = chars_of(input);
    match slash_query_start(&v) {
        Some(i) => !range_has_ws(&v, i, v.len()),
        None => false,
    }
}

/// The position of the first whitespace character of `s`, or its length.
pub open spec fn first_ws(s: Seq<char>) -> int
    decreases s.len(),
{
    if s.len() == 0 {
        0
    } else if is_ws(s[0]) {
        0
    } else {
        1 + first_ws(s.drop_first())
    }
}

proof fn lemma_first_ws(s: Seq<char>, i: int)
    requires
        0 <= i <= s.len(),
        forall|k: int| 0 <= k < i ==> !is_ws(#[trigger] s[k]),
        i < s.len() ==> is_ws(s[i]),
    ensures
        first_ws(s) == i,
    decreases s.len(),
{
    if s.len() > 0 && !is_ws(s[0]) {
        assert forall|k: int| 0 <= k < i - 1 implies !is_ws(#[trigger] s.drop_first()[k]) by {
            assert(s.drop_first()[k] == s[k + 1]);
        }
        if i - 1 < s.len() - 1 {
            assert(s.drop_first()[i - 1] == s[i]);
        }
        lemma_first_ws(s.drop_first(), i - 1);
    }
}

pub proof fn lemma_first_ws_bounds(s: Seq<char>)
    ensures
        0 <= first_ws(s) <= s.len(),
        s.len() > 0 && !is_ws(s[0]) ==> first_ws(s) >= 1,
        forall|k: int| 0 <= k < first_ws(s) ==> !is_ws(#[trigger] s[k]),
        first_ws(s) < s.len() ==> is_ws(s[first_ws(s)]),
    decreases s.len(),
{
    if s.len() > 0 && !is_ws(s[0]) {
        lemma_first_ws_bounds(s.drop_first());
        assert forall|k: int| 0 <= k < first_ws(s) implies !is_ws(#[trigger] s[k]) by {
            if k > 0 {
                assert(s[k] == s.drop_first()[k - 1]);
            }
        }
    }
}

/// The first position in `from..to` holding whitespace, or `to`.
pub(crate) fn find_ws(v: &Vec<char>, from: usize, to: usize) -> (r: usize)
    requires
        from <= to <= v@.len(),
    ensures
        from <= r <= to,
        first_ws(v@.subrange(from as int, to as int)) == r - from,
{
    let mut i = from;
    while i < to && !crate::text::is_whitespace(v[i])
        invariant
            from <= i <= to <= v@.len(),
            forall|k: int| from <= k < i ==> !is_ws(#[trigger] v@[k]),
        decreases to - i,
    {
        i += 1;
    }
    proof {
        let s = v@.subrange(from as int, to as int);
        assert forall|k: int| 0 <= k < i - from implies !is_ws(#[trigger] s[k]) by {
            assert(s[k] == v@[from + k]);
        }
        if i < to {
            assert(s[i - from] == v@[i as int]);
        }
        lemma_first_ws(s, i - from);
    }
    i
}

/// The first whitespace-separated word of `s` (`split_whitespace().next()`),
/// or nothing.
pub open spec fn first_word(s: Seq<char>) -> Seq<char> {
    let t = trim_start(s);
    t.subrange(0, first_ws(t))
}

pub open spec fn names_of(commands: Seq<CommandDescriptor>) -> Seq<Seq<char>> {
    commands.map_values(|c: CommandDescriptor| c.name@)
}

/// Whether the command name `name` starts with `token`.
pub open spec fn name_starts_with(name: Seq<char>, token: Seq<char>) -> bool {
    token.len() <= name.len() && name.subrange(0, token.len() as int) == token
}

/// The positions in `names` of the commands that a slash query matches, in
/// catalog order; nothing when `input` is not a slash query.
pub open spec fn matching_positions(names: Seq<Seq<char>>, input: Seq<char>, upto: int) -> Seq<int>
    decreases upto,
{
    if upto <= 0 || slash_query_spec(input) is None {
        seq![]
    } else {
        let prev = matching_positions(names, input, upto - 1);
        if name_starts_with(names[upto - 1], first_word(slash_query_spec(input)->0)) {
            prev.push(upto - 1)
        } else {
            prev
        }
    }
}

/// The first word of the slash query in `v`, starting at `i`.
fn query_token(v: &Vec<char>, i: usize) -> (r: Vec<char>)
    requires
        i <= v@.len(),
    ensures
        r@ == first_word(v@.subrange(i as int, v@.len() as int)),
{
    let a = skip_ws(v, i, v.len());
    let b = find_ws(v, a, v.len());
    let mut t: Vec<char> = Vec::new();
    let mut k = a;
    while k < b
        invariant
            a <= k <= b <= v@.len(),
            t@ == v@.subrange(a as int, k as int),
        decreases b - k,
    {
        t.push(v[k]);
        assert(v@.subrange(a as int, k + 1) =~= v@.subrange(a as int, k as int).push(v@[k as int]));
        k += 1;
    }
    assert(v@.subrange(a as int, v@.len() as int).subrange(0, b - a) =~= v@.subrange(
        a as int,
        b as int,
    ));
    t
}

/// The commands of `commands` that the slash query in `input` matches.
pub fn matching_commands<'a>(commands: &'a Vec<CommandDescriptor>, input: &str) -> (r: Vec<
    &'a CommandDescriptor,
>)
    ensures
        r@.len() == matching_positions(names_of(commands@), input@, commands@.len() as int).len(),
        forall|k: int|
            0 <= k < r@.len() ==> *#[trigger] r@[k] == commands@[matching_positions(
                names_of(commands@),
                input@,
                commands@.len() as int,
            )[k]],
{
    let ghost names = names_of(commands@);
    let v = chars_of(input);
    let start = match slash_query_start(&v) {
        Some(i) => i,
        None => {
            proof {
                if commands@.len() > 0 {
                    assert(matching_positions(names, input@, commands@.len() as int) =~= seq![]);
                }
            }
            return Vec::new();
        },
    };
    let token = query_token(&v, start);
    let mut r: Vec<&'a CommandDescriptor> = Vec::new();
    let mut i: usize = 0;
    while i < commands.len()
        invariant
            0 <= i <= commands@.len(),
            v@ == input@,
            names == names_of(commands@),
            slash_query_spec(input@) == Some(v@.subrange(start as int, v@.len() as int)),
            token@ == first_word(slash_query_spec(input@)->0),
            r@.len() == matching_positions(names, input@, i as int).len(),
            forall|k: int|
                0 <= k < r@.len() ==> *#[trigger] r@[k] == commands@[matching_positions(
                    names,
                    input@,
                    i as int,
                )[k]],
        decreases commands@.len() - i,
    {
        let nv = chars_of(commands[i].name.as_str());
        let ok = range_starts_with(&nv, 0, nv.len(), &token);
        assert(names[i as int] == commands@[i as int].name@);
        if ok {
            assert(nv@.subrange(0, token@.len() as int) == token@);
            r.push(&commands[i]);
        }
        i += 1;
    }
    r
}

/// What the slash query in `input` invokes: the name before the first
/// whitespace, when it is a command of `names`, and the trimmed rest.
pub open spec fn invocation(input: Seq<char>, names: Seq<Seq<char>>) -> Option<(Seq<char>, Seq<char>)> {
    match slash_query_spec(input) {
        None => None,
        Some(q) => {
            let i = first_ws(q);
            let name = q.subrange(0, i);
            let args = if i < q.len() {
                trim(q.subrange(i + 1, q.len() as int))
            } else {
                seq![]
            };
            if name.len() > 0 && names.contains(name) {
                Some((name, args))
            } else {
                None
            }
        },
    }
}

proof fn lemma_first_ws_bound(s: Seq<char>)
    ensures
        0 <= first_ws(s) <= s.len(),
    decreases s.len(),
{
    if s.len() > 0 {
        lemma_first_ws_bound(s.drop_first());
    }
}

pub fn command_invocation(input: &str, commands: &Vec<CommandDescriptor>) -> (r: Option<
    (String, String),
>)
    ensures
        match r {
            Some((name, args)) => invocation(input@, names_of(commands@)) == Some((name@, args@)),
            None => invocation(input@, names_of(commands@)) is None,
        },
{
    let v = chars_of(input);
    let start = match slash_query_start(&v) {
        Some(i) => i,
        None => return None,
    };
    let ghost q = v@.subrange(start as int, v@.len() as int);
    let e = find_ws(&v, start, v.len());
    assert(q.subrange(0, e - start) =~= v@.subrange(start as int, e as int));
    if e == start {
        return None;
    }
    let name = string_of(&v, start, e);
    let mut i: usize = 0;
    let mut found = false;
    while i < commands.len()
        invariant
            0 <= i <= commands@.len(),
            found == names_of(commands@).take(i as int).contains(name@),
        decreases commands@.len() - i,
    {
        assert(names_of(commands@).take(i + 1) =~= names_of(commands@).take(i as int).push(
            commands@[i as int].name@,
        ));
        if !found && commands[i].name == name {
            found = true;
        }
        proof {
            let t = names_of(commands@).take(i + 1);
            if commands@[i as int].name@ == name@ {
                assert(t[i as int] == name@);
            }
            if found && !names_of(commands@).take(i as int).contains(name@) {
                assert(t[i as int] == name@);
            }
            if names_of(commands@).take(i as int).contains(name@) {
                let k = choose|k: int| 0 <= k < i && names_of(commands@).take(i as int)[k] == name@;
                assert(t[k] == name@);
            }
            if t.contains(name@) {
                let k = choose|k: int| 0 <= k < t.len() && t[k] == name@;
                if k < i {
                    assert(names_of(commands@).take(i as int)[k] == name@);
                }
            }
        }
        i += 1;
    }
    assert(names_of(commands@).take(commands@.len() as int) =~= names_of(commands@));
    if !found {
        return None;
    }
    let args = if e < v.len() {
        let (a, b) = trim_range(&v, e + 1, v.len());
        assert(q.subrange(e - start + 1, q.len() as int) =~= v@.subrange(e + 1, v@.len() as int));
        string_of(&v, a, b)
    } else {
        String::new()
    };
    Some((name, args))
}


/// What Tab accepts from the command menu: the selected match (the last one
/// when `selected` is past the end) as `/name `.
pub open spec fn accepted(names: Seq<Seq<char>>, input: Seq<char>, selected: int) -> Option<Seq<char>> {
    let m = matching_positions(names, input, names.len() as int);
    if m.len() == 0 {
        None
    } else {
        let k = if selected < m.len() - 1 {
            selected
        } else {
            m.len() - 1
        };
        Some("/"@ + names[m[k]] + " "@)
    }
}

proof fn lemma_matching_positions_bounds(names: Seq<Seq<char>>, input: Seq<char>, upto: int)
    requires
        upto <= names.len(),
    ensures
        forall|k: int|
            0 <= k < matching_positions(names, input, upto).len() ==> 0 <= #[trigger] matching_positions(
                names,
                input,
                upto,
            )[k] < upto,
    decreases upto,
{
    if upto > 0 && slash_query_spec(input) is Some {
        lemma_matching_positions_bounds(names, input, upto - 1);
        let prev = matching_positions(names, input, upto - 1);
        let m = matching_positions(names, input, upto);
        assert forall|k: int| 0 <= k < m.len() implies 0 <= #[trigger] m[k] < upto by {
            if k < prev.len() {
                assert(m[k] == prev[k]);
            }
        }
    }
}

pub fn accepted_completion(input: &str, commands: &Vec<CommandDescriptor>, selected: usize) -> (r:
    Option<String>)
    ensures
        match r {
            Some(s) => accepted(names_of(commands@), input@, selected as int) == Some(s@),
            None => accepted(names_of(commands@), input@, selected as int) is None,
        },
{
    let matches = matching_commands(commands, input);
    if matches.len() == 0 {
        return None;
    }
    let k = if selected < matches.len() - 1 {
        selected
    } else {
        matches.len() - 1
    };
    let command = matches[k];
    proof {
        lemma_matching_positions_bounds(names_of(commands@), input@, commands@.len() as int);
    }
    let mut out = string_from("/");
    push_str(&mut out, command.name.as_str());
    push_str(&mut out, " ");
    Some(out)
}

/// The warning shown beside a command that does more than expand a prompt.
pub open spec fn warning(c: CommandDescriptor) -> Option<Seq<char>> {
    if c.agent is Some {
        Some("uses subagent"@)
    } else if c.model is Some {
        Some("changes model"@)
    } else if c.has_shell_includes {
        Some("shell gated"@)
    } else if c.has_url_includes {
        Some("url gated"@)
    } else if c.source@.len() >= 10 && c.source@.subrange(0, 10) == "extension:"@ {
        Some("extension command from "@ + c.source@)
    } else {
        None
    }
}

pub fn command_warning(command: &CommandDescriptor) -> (r: Option<String>)
    ensures
        match r {
            Some(s) => warning(*command) == Some(s@),
            None => warning(*command) is None,
        },
{
    if command.agent.is_some() {
        Some(string_from("uses subagent"))
    } else if command.model.is_some() {
        Some(string_from("changes model"))
    } else if command.has_shell_includes {
        Some(string_from("shell gated"))
    } else if command.has_url_includes {
        Some(string_from("url gated"))
    } else {
        let v = chars_of(command.source.as_str());
        let p = chars_of("extension:");
        proof {
            reveal_strlit("extension:");
        }
        if range_starts_with(&v, 0, v.len(), &p) {
            let mut out = string_from("extension command from ");
            push_str(&mut out, command.source.as_str());
            Some(out)
        } else {
            None
        }
    }
}

/// The built-in commands, by name and description, in catalog order.
pub open spec fn built_in_commands() -> Seq<(Seq<char>, Seq<char>)> {
    seq![
        ("init"@, "Create or refresh project instructions for this workspace."@),
        ("clear"@, "Clear the visible conversation state."@),
        ("compact"@, "Summarize the current thread and continue with a smaller context."@),
        ("help"@, "Show available commands and common workflows."@),
        ("model"@, "Show or change the active model."@),
        ("agents"@, "List configured subagents."@),
        ("memory"@, "Inspect relevant project and user memory."@),
    ]
}

fn built_in(name: &str, description: &str) -> (c: CommandDescriptor)
    ensures
        c.name@ == name@,
        c.description matches Some(d) && d@ == description@,
        c.argument_hint is None,
        c.source@ == "built-in"@,
        c.model is None,
        c.agent is None,
        !c.has_shell_includes,
        !c.has_url_includes,
{
    CommandDescriptor {
        name: string_from(name),
        description: Some(string_from(description)),
        argument_hint: None,
        source: string_from("built-in"),
        model: None,
        agent: None,
        has_shell_includes: false,
        has_url_includes: false,
    }
}

pub fn built_in_command_catalog() -> (r: Vec<CommandDescriptor>)
    ensures
        r@.len() == built_in_commands().len(),
        forall|i: int|
            0 <= i < r@.len() ==> {
                &&& (#[trigger] r@[i]).name@ == built_in_commands()[i].0
                &&& r@[i].description matches Some(d) && d@ == built_in_commands()[i].1
                &&& r@[i].argument_hint is None
                &&& r@[i].source@ == "built-in"@
                &&& r@[i].model is None
                &&& r@[i].agent is None
                &&& !r@[i].has_shell_includes
                &&& !r@[i].has_url_includes
            },
{
    let mut r: Vec<CommandDescriptor> = Vec::new();
    r.push(built_in("init", "Create or refresh project instructions for this workspace."));
    r.push(built_in("clear", "Clear the visible conversation state."));
    r.push(
        built_in("compact", "Summarize the current thread and continue with a smaller context."),
    );
    r.push(built_in("help", "Show available commands and common workflows."));
    r.push(built_in("model", "Show or change the active model."));
    r.push(built_in("agents", "List configured subagents."));
    r.push(built_in("memory", "Inspect relevant project and user memory."));
    r
}

/// The first word of `/goal` arguments and the trimmed rest.
pub open spec fn goal_action(args: Seq<char>) -> (Seq<char>, Seq<char>) {
    let i = first_ws(args);
    (args.subrange(0, i), if i < args.len() {
        trim(args.subrange(i + 1, args.len() as int))
    } else {
        seq![]
    })
}

pub fn split_goal_action(args: &str) -> (r: (String, String))
    ensures
        (r.0@, r.1@) == goal_action(args@),
{
    let v = chars_of(args);
    let e = find_ws(&v, 0, v.len());
    assert(v@.subrange(0, v@.len() as int) =~= v@);
    let action = string_of(&v, 0, e);
    let rest = if e < v.len() {
        let (a, b) = trim_range(&v, e + 1, v.len());
        string_of(&v, a, b)
    } else {
        String::new()
    };
    (action, rest)
}

} // verus!
