//! Task definitions and their validation.
use vstd::prelude::*;

use crate::actions::copy::CopyActionArgs;
use crate::actions::definition_effect;
use crate::effect::EffectSpec;
use crate::actions::file::FileActionArgs;
use crate::actions::mkdir::MkdirActionArgs;
use crate::actions::mv::MoveActionArgs;
use crate::actions::remove::RemoveActionArgs;
use crate::actions::shell::ShellActionArgs;

verus! {

/// The kind of action a task declares, with its arguments.
pub enum ActionDefinition {
    Copy { args: CopyActionArgs },
    File { args: FileActionArgs },
    Mkdir { args: MkdirActionArgs },
    Move { args: MoveActionArgs },
    Remove { args: RemoveActionArgs },
    Shell { args: ShellActionArgs },
}

/// A named task.
pub struct TaskDefinition {
    pub name: String,
    pub action: ActionDefinition,
}

/// The whole task list, in declaration order.
pub struct Yaml {
    pub tasks: Vec<TaskDefinition>,
}

} // verus!

verus! {

/// Why a task entry was refused.
pub enum ParseError {
    /// The entry at index `task` lacks the field `field`.
    MissingField { task: usize, field: String },
    /// The entry at index `task` declares an action kind that does not exist.
    UnknownAction { task: usize, action: String },
}

/// The mathematical form of a task entry's refusal.
pub enum EntryError {
    Missing(Seq<char>),
    Unknown(Seq<char>),
}

/// What a parsed task holds: its name, its action kind and its effect.
pub struct TaskShape {
    pub name: Seq<char>,
    pub kind: Seq<char>,
    pub effect: EffectSpec,
}

/// The views of an entry's key/value pairs.
pub open spec fn pairs_view(fields: Seq<(String, String)>) -> Seq<(Seq<char>, Seq<char>)> {
    fields.map_values(|p: (String, String)| (p.0@, p.1@))
}

/// The value of the first pair whose key is `key`.
pub open spec fn lookup(fields: Seq<(Seq<char>, Seq<char>)>, key: Seq<char>) -> Option<Seq<char>>
    decreases fields.len(),
{
    if fields.len() == 0 {
        None
    } else if fields[0].0 == key {
        Some(fields[0].1)
    } else {
        lookup(fields.drop_first(), key)
    }
}

/// The fields that an action kind requires besides `name` and `action`, or
/// `None` for a kind that does not exist.
pub open spec fn required_fields(kind: Seq<char>) -> Option<Seq<Seq<char>>> {
    if kind == "copy"@ || kind == "move"@ {
        Some(seq!["src"@, "dest"@])
    } else if kind == "file"@ || kind == "mkdir"@ || kind == "remove"@ {
        Some(seq!["path"@])
    } else if kind == "shell"@ {
        Some(seq!["command"@])
    } else {
        None
    }
}

/// The first of `keys` that `fields` lacks.
pub open spec fn first_missing(fields: Seq<(Seq<char>, Seq<char>)>, keys: Seq<Seq<char>>) -> Option<
    Seq<char>,
>
    decreases keys.len(),
{
    if keys.len() == 0 {
        None
    } else if lookup(fields, keys[0]) is None {
        Some(keys[0])
    } else {
        first_missing(fields, keys.drop_first())
    }
}

/// The effect that an entry of kind `kind` with these fields declares.
pub open spec fn declared_effect(kind: Seq<char>, fields: Seq<(Seq<char>, Seq<char>)>) -> EffectSpec {
    if kind == "copy"@ {
        EffectSpec::CopyFile(lookup(fields, "src"@)->0, lookup(fields, "dest"@)->0)
    } else if kind == "move"@ {
        EffectSpec::Rename(lookup(fields, "src"@)->0, lookup(fields, "dest"@)->0)
    } else if kind == "remove"@ {
        EffectSpec::RemoveFile(lookup(fields, "path"@)->0)
    } else if kind == "shell"@ {
        EffectSpec::RunShell(lookup(fields, "command"@)->0)
    } else {
        EffectSpec::CreateDirAll(lookup(fields, "path"@)->0)
    }
}

/// What one entry parses to: a `name`, an `action` naming a known kind, and
/// the fields that kind requires; other fields are ignored.
pub open spec fn entry_spec(fields: Seq<(Seq<char>, Seq<char>)>) -> Result<TaskShape, EntryError> {
    match lookup(fields, "name"@) {
        None => Err(EntryError::Missing("name"@)),
        Some(name) => match lookup(fields, "action"@) {
            None => Err(EntryError::Missing("action"@)),
            Some(kind) => match required_fields(kind) {
                None => Err(EntryError::Unknown(kind)),
                Some(keys) => match first_missing(fields, keys) {
                    Some(k) => Err(EntryError::Missing(k)),
                    None => Ok(TaskShape { name, kind, effect: declared_effect(kind, fields) }),
                },
            },
        },
    }
}

/// The action kind of a definition, as the entry names it.
pub open spec fn definition_kind(def: ActionDefinition) -> Seq<char> {
    match def {
        ActionDefinition::Copy { .. } => "copy"@,
        ActionDefinition::File { .. } => "file"@,
        ActionDefinition::Mkdir { .. } => "mkdir"@,
        ActionDefinition::Move { .. } => "move"@,
        ActionDefinition::Remove { .. } => "remove"@,
        ActionDefinition::Shell { .. } => "shell"@,
    }
}

pub open spec fn shape_of(t: TaskDefinition) -> TaskShape {
    TaskShape { name: t.name@, kind: definition_kind(t.action), effect: definition_effect(t.action) }
}

pub open spec fn error_is(e: ParseError, index: int, expected: EntryError) -> bool {
    match expected {
        EntryError::Missing(f) => e matches ParseError::MissingField { task, field } && task
            == index && field@ == f,
        EntryError::Unknown(a) => e matches ParseError::UnknownAction { task, action } && task
            == index && action@ == a,
    }
}

fn field_value(fields: &Vec<(String, String)>, key: &str) -> (r: Option<String>)
    ensures
        match lookup(pairs_view(fields@), key@) {
            None => r is None,
            Some(v) => r matches Some(s) && s@ == v,
        },
{
    let k = String::from_str(key);
    let ghost fv = pairs_view(fields@);
    let mut i: usize = 0;
    assert(fv.subrange(0, fv.len() as int) =~= fv);
    while i < fields.len()
        invariant
            i <= fields.len(),
            fv == pairs_view(fields@),
            k@ == key@,
            lookup(fv, key@) == lookup(fv.subrange(i as int, fv.len() as int), key@),
        decreases fields.len() - i,
    {
        assert(fv.subrange(i as int, fv.len() as int).drop_first() =~= fv.subrange(
            i + 1,
            fv.len() as int,
        ));
        if fields[i].0 == k {
            return Some(fields[i].1.clone());
        }
        i = i + 1;
    }
    None
}

/// Looks `key` up in `fields`, or gives the error that the entry at index
/// `task` lacks it.
fn required(fields: &Vec<(String, String)>, key: &str, task: usize) -> (r: Result<String, ParseError>)
    ensures
        match lookup(pairs_view(fields@), key@) {
            None => r matches Err(e) && error_is(e, task as int, EntryError::Missing(key@)),
            Some(v) => r matches Ok(s) && s@ == v,
        },
{
    match field_value(fields, key) {
        Some(v) => Ok(v),
        None => Err(ParseError::MissingField { task, field: String::from_str(key) }),
    }
}

/// Parses one task entry, given as its key/value pairs; `index` is its place
/// in the task list, which an error carries.
pub fn parse_task(fields: &Vec<(String, String)>, index: usize) -> (r: Result<
    TaskDefinition,
    ParseError,
>)
    ensures
        match entry_spec(pairs_view(fields@)) {
            Ok(shape) => r matches Ok(t) && shape_of(t) == shape,
            Err(expected) => r matches Err(e) && error_is(e, index as int, expected),
        },
{
    let ghost fv = pairs_view(fields@);
    proof {
        reveal_strlit("copy");
        reveal_strlit("move");
        reveal_strlit("file");
        reveal_strlit("mkdir");
        reveal_strlit("remove");
        reveal_strlit("shell");
        reveal_strlit("src");
        reveal_strlit("dest");
        reveal_strlit("path");
        reveal_strlit("command");
        reveal_with_fuel(first_missing, 3);
        assert("file"@[0] != "copy"@[0] && "file"@[0] != "move"@[0]);
        assert("mkdir"@[0] != "shell"@[0]);
    }
    let name = match required(fields, "name", index) {
        Ok(v) => v,
        Err(e) => return Err(e),
    };
    let kind = match required(fields, "action", index) {
        Ok(v) => v,
        Err(e) => return Err(e),
    };
    let action = if kind == String::from_str("copy") || kind == String::from_str("move") {
        let src = match required(fields, "src", index) {
            Ok(v) => v,
            Err(e) => return Err(e),
        };
        proof {
            assert(seq!["src"@, "dest"@].drop_first() =~= seq!["dest"@]);
            assert(seq!["dest"@].drop_first() =~= Seq::<Seq<char>>::empty());
        }
        let dest = match required(fields, "dest", index) {
            Ok(v) => v,
            Err(e) => return Err(e),
        };
        if kind == String::from_str("copy") {
            ActionDefinition::Copy { args: CopyActionArgs { src, dest } }
        } else {
            ActionDefinition::Move { args: MoveActionArgs { src, dest } }
        }
    } else if kind == String::from_str("file") || kind == String::from_str("mkdir") || kind
        == String::from_str("remove") {
        let path = match required(fields, "path", index) {
            Ok(v) => v,
            Err(e) => return Err(e),
        };
        assert(seq!["path"@].drop_first() =~= Seq::<Seq<char>>::empty());
        if kind == String::from_str("file") {
            ActionDefinition::File { args: FileActionArgs { path } }
        } else if kind == String::from_str("mkdir") {
            ActionDefinition::Mkdir { args: MkdirActionArgs { path } }
        } else {
            ActionDefinition::Remove { args: RemoveActionArgs { path } }
        }
    } else if kind == String::from_str("shell") {
        let command = match required(fields, "command", index) {
            Ok(v) => v,
            Err(e) => return Err(e),
        };
        assert(seq!["command"@].drop_first() =~= Seq::<Seq<char>>::empty());
        ActionDefinition::Shell { args: ShellActionArgs { command } }
    } else {
        return Err(ParseError::UnknownAction { task: index, action: kind });
    };
    Ok(TaskDefinition { name, action })
}

} // verus!

verus! {

pub open spec fn entries_view(es: Seq<Vec<(String, String)>>) -> Seq<
    Seq<(Seq<char>, Seq<char>)>,
> {
    es.map_values(|e: Vec<(String, String)>| pairs_view(e@))
}

pub open spec fn shapes_of(ts: Seq<TaskDefinition>) -> Seq<TaskShape> {
    ts.map_values(|t: TaskDefinition| shape_of(t))
}

pub open spec fn indices_of(ks: Seq<usize>) -> Seq<int> {
    ks.map_values(|k: usize| k as int)
}

/// What the first `n` entries load to: the tasks in entry order and the
/// indices of the entries that were skipped, or the index and reason of the
/// first refused entry. An entry of an unknown kind is refused when `strict`
/// holds and skipped otherwise; any other fault is always refused.
pub open spec fn load_spec(es: Seq<Seq<(Seq<char>, Seq<char>)>>, strict: bool, n: int) -> Result<
    (Seq<TaskShape>, Seq<int>),
    (int, EntryError),
>
    decreases n,
{
    if n <= 0 {
        Ok((Seq::empty(), Seq::empty()))
    } else {
        match load_spec(es, strict, n - 1) {
            Err(e) => Err(e),
            Ok((shapes, skipped)) => match entry_spec(es[n - 1]) {
                Ok(shape) => Ok((shapes.push(shape), skipped)),
                Err(e) => if !strict && e is Unknown {
                    Ok((shapes, skipped.push(n - 1)))
                } else {
                    Err((n - 1, e))
                },
            },
        }
    }
}

/// Once an entry is refused, loading more entries gives the same refusal.
proof fn lemma_refusal_stays(es: Seq<Seq<(Seq<char>, Seq<char>)>>, strict: bool, i: int, n: int)
    requires
        0 <= i <= n,
        load_spec(es, strict, i) is Err,
    ensures
        load_spec(es, strict, n) == load_spec(es, strict, i),
    decreases n - i,
{
    if n > i {
        lemma_refusal_stays(es, strict, i, n - 1);
    }
}

/// Builds the task list from its entries, each given as its key/value pairs,
/// in order. Returns the tasks and the indices of the skipped entries, or
/// the first refused entry's error.
pub fn parse_tasks(entries: &Vec<Vec<(String, String)>>, strict: bool) -> (r: Result<
    (Yaml, Vec<usize>),
    ParseError,
>)
    ensures
        match load_spec(entries_view(entries@), strict, entries@.len() as int) {
            Ok((shapes, skipped)) => r matches Ok((y, s)) && shapes_of(y.tasks@) == shapes
                && indices_of(s@) == skipped,
            Err((i, expected)) => r matches Err(e) && error_is(e, i, expected),
        },
{
    let ghost ev = entries_view(entries@);
    let mut tasks: Vec<TaskDefinition> = Vec::new();
    let mut skipped: Vec<usize> = Vec::new();
    let mut i: usize = 0;
    assert(shapes_of(tasks@) =~= Seq::empty());
    assert(indices_of(skipped@) =~= Seq::empty());
    while i < entries.len()
        invariant
            i <= entries.len(),
            ev == entries_view(entries@),
            load_spec(ev, strict, i as int) == Ok::<_, (int, EntryError)>(
                (shapes_of(tasks@), indices_of(skipped@)),
            ),
        decreases entries.len() - i,
    {
        assert(ev[i as int] == pairs_view(entries@[i as int]@));
        match parse_task(&entries[i], i) {
            Ok(t) => {
                let ghost before = tasks@;
                tasks.push(t);
                assert(shapes_of(tasks@) =~= shapes_of(before).push(shape_of(t)));
            },
            Err(e) => {
                match e {
                    ParseError::UnknownAction { .. } => {
                        if strict {
                            proof {
                                lemma_refusal_stays(ev, strict, i + 1, ev.len() as int);
                            }
                            return Err(e);
                        }
                        let ghost before = skipped@;
                        skipped.push(i);
                        assert(indices_of(skipped@) =~= indices_of(before).push(i as int));
                    },
                    ParseError::MissingField { .. } => {
                        proof {
                            lemma_refusal_stays(ev, strict, i + 1, ev.len() as int);
                        }
                        return Err(e);
                    },
                }
            },
        }
        i = i + 1;
    }
    Ok((Yaml { tasks }, skipped))
}

} // verus!
