//! The invocation tree and its flattening into a command name and one flat
//! argument map.
use vstd::prelude::*;

verus! {

/// What `str::to_lowercase` returns for a sequence of characters.
pub uninterp spec fn lower_of(s: Seq<char>) -> Seq<char>;

/// Relies on `str::to_lowercase`: the result depends on the characters alone.
#[verifier::external_body]
fn lowercase(s: &str) -> (r: String)
    ensures
        r@ == lower_of(s@),
{
    s.to_lowercase()
}

/// Relies on `String::push_str`: the characters of `t` are appended.
#[verifier::external_body]
pub(crate) fn append(s: &mut String, t: &str)
    ensures
        final(s)@ == old(s)@ + t@,
{
    s.push_str(t)
}

/// The value of a node's `command` field.
pub enum CommandValue<V> {
    /// The null marker.
    Null,
    /// A bare text label naming a terminal subcommand.
    Text(String),
    /// Any other scalar or list, carried as its debug rendering.
    Other(String),
    /// A map without entries.
    EmptyMap,
    /// A single-entry map `{ name: rest }`.
    Branch(String, Box<Node<V>>),
}

/// One node of an invocation tree: its `command` field, if present, and all
/// its other fields in iteration order.
pub struct Node<V> {
    pub command: Option<CommandValue<V>>,
    pub fields: Vec<(String, V)>,
}

/// A flattened invocation: the joined subcommand labels and the arguments of
/// the terminal node, with lowercased and unique keys.
pub struct Command<V> {
    pub name: String,
    pub arguments: Vec<(String, V)>,
}

/// The outcome of inspecting one node.
pub enum Step<V> {
    /// A subcommand label, and the node to inspect next.
    Descend(String, Node<V>),
    /// A terminal label: nothing follows.
    Label(String),
    /// The fields of a terminal node, which are the arguments.
    Arguments(Vec<(String, V)>),
    /// Nothing to collect.
    Stop,
}

/// The lowercased subcommand labels, root to leaf.
pub open spec fn labels_of<V>(n: Node<V>) -> Seq<Seq<char>>
    decreases n,
{
    match n.command {
        Some(CommandValue::Text(s)) => seq![lower_of(s@)],
        Some(CommandValue::Other(s)) => seq![lower_of(s@)],
        Some(CommandValue::Branch(s, rest)) => seq![lower_of(s@)] + labels_of(*rest),
        _ => seq![],
    }
}

/// The fields of the terminal node that supplies the arguments, if any.
pub open spec fn terminal_fields<V>(n: Node<V>) -> Seq<(String, V)>
    decreases n,
{
    match n.command {
        None => n.fields@,
        Some(CommandValue::Null) => n.fields@,
        Some(CommandValue::Branch(_, rest)) => terminal_fields(*rest),
        _ => seq![],
    }
}

/// Fields merged into a map under lowercased keys, later fields winning.
pub open spec fn merged<V>(fields: Seq<(String, V)>) -> Map<Seq<char>, V>
    decreases fields.len(),
{
    if fields.len() == 0 {
        map![]
    } else {
        merged(fields.drop_last()).insert(lower_of(fields.last().0@), fields.last().1)
    }
}

/// Labels joined by single spaces.
pub open spec fn joined(labels: Seq<Seq<char>>) -> Seq<char>
    decreases labels.len(),
{
    if labels.len() == 0 {
        seq![]
    } else if labels.len() == 1 {
        labels[0]
    } else {
        joined(labels.drop_last()) + seq![' '] + labels.last()
    }
}

/// The map that a list of entries with unique keys stands for.
pub open spec fn entries_map<V>(entries: Seq<(String, V)>) -> Map<Seq<char>, V>
    decreases entries.len(),
{
    if entries.len() == 0 {
        map![]
    } else {
        entries_map(entries.drop_last()).insert(entries.last().0@, entries.last().1)
    }
}

/// No two entries share a key.
pub open spec fn keys_unique<V>(entries: Seq<(String, V)>) -> bool {
    forall|i: int, j: int|
        0 <= i < j < entries.len() ==> #[trigger] entries[i].0@ != #[trigger] entries[j].0@
}

/// `r` is the flattening of `root`.
pub open spec fn flattens<V>(root: Node<V>, r: Command<V>) -> bool {
    &&& r.name@ == joined(labels_of(root))
    &&& keys_unique(r.arguments@)
    &&& entries_map(r.arguments@) == merged(terminal_fields(root))
}

/// What inspecting `n` yields, with labels left to be lowercased.
pub open spec fn step_of<V>(n: Node<V>, r: Step<V>) -> bool {
    match n.command {
        Some(CommandValue::Branch(s, rest)) => r matches Step::Descend(l, next) && l@ == lower_of(
            s@,
        ) && next == *rest,
        Some(CommandValue::Text(s)) => r matches Step::Label(l) && l@ == lower_of(s@),
        Some(CommandValue::Other(s)) => r matches Step::Label(l) && l@ == lower_of(s@),
        Some(CommandValue::EmptyMap) => r is Stop,
        _ => r matches Step::Arguments(f) && f == n.fields,
    }
}


proof fn lemma_entries_map_update<V>(s: Seq<(String, V)>, i: int, k: String, v: V)
    requires
        keys_unique(s),
        0 <= i < s.len(),
        s[i].0@ == k@,
    ensures
        entries_map(s.update(i, (k, v))) == entries_map(s).insert(k@, v),
    decreases s.len(),
{
    let t = s.update(i, (k, v));
    if i == s.len() - 1 {
        assert(t.drop_last() =~= s.drop_last());
        assert(entries_map(t) =~= entries_map(s).insert(k@, v));
    } else {
        assert(t.drop_last() =~= s.drop_last().update(i, (k, v)));
        assert(keys_unique(s.drop_last()));
        lemma_entries_map_update(s.drop_last(), i, k, v);
        assert(s.last().0@ != k@);
        assert(entries_map(t) =~= entries_map(s).insert(k@, v));
    }
}

/// Inserts `value` under `key`, replacing the value of an equal key.
fn insert_argument<V>(arguments: &mut Vec<(String, V)>, key: String, value: V)
    requires
        keys_unique(old(arguments)@),
    ensures
        keys_unique(final(arguments)@),
        entries_map(final(arguments)@) == entries_map(old(arguments)@).insert(key@, value),
{
    let mut i: usize = 0;
    while i < arguments.len()
        invariant
            i <= arguments.len(),
            arguments@ == old(arguments)@,
            keys_unique(arguments@),
            forall|j: int| 0 <= j < i ==> (#[trigger] arguments@[j]).0@ != key@,
        decreases arguments.len() - i,
    {
        if arguments[i].0 == key {
            proof {
                lemma_entries_map_update(arguments@, i as int, key, value);
            }
            let ghost before = arguments@;
            arguments.set(i, (key, value));
            assert(forall|j: int| 0 <= j < arguments@.len() ==> (#[trigger] arguments@[j]).0@ == before[j].0@);
            return;
        }
        i = i + 1;
    }
    let ghost before = arguments@;
    arguments.push((key, value));
    assert(arguments@.drop_last() =~= before);
    assert(forall|j: int| 0 <= j < before.len() ==> (#[trigger] arguments@[j]) == before[j]);
}

/// Inspects the `command` field of one node.
pub fn get_next_command<V>(node: Node<V>) -> (r: Step<V>)
    ensures
        step_of(node, r),
{
    let Node { command, fields } = node;
    match command {
        Some(CommandValue::Branch(name, rest)) => Step::Descend(lowercase(&name), *rest),
        Some(CommandValue::Text(label)) => Step::Label(lowercase(&label)),
        Some(CommandValue::Other(label)) => Step::Label(lowercase(&label)),
        Some(CommandValue::EmptyMap) => Step::Stop,
        _ => Step::Arguments(fields),
    }
}

/// Merges fields into `arguments` under lowercased keys, in order.
fn merge_arguments<V>(arguments: &mut Vec<(String, V)>, fields: Vec<(String, V)>)
    requires
        keys_unique(old(arguments)@),
        entries_map(old(arguments)@) == Map::<Seq<char>, V>::empty(),
    ensures
        keys_unique(final(arguments)@),
        entries_map(final(arguments)@) == merged(fields@),
{
    let ghost all = fields@;
    let mut rest = fields;
    let ghost mut done: int = 0;
    assert(all.take(0) =~= Seq::<(String, V)>::empty());
    while rest.len() > 0
        invariant
            0 <= done <= all.len(),
            rest@ == all.skip(done),
            keys_unique(arguments@),
            entries_map(arguments@) == merged(all.take(done)),
        decreases rest.len(),
    {
        let (key, value) = rest.remove(0);
        assert(all.take(done + 1).drop_last() =~= all.take(done));
        insert_argument(arguments, lowercase(&key), value);
        proof {
            done = done + 1;
        }
        assert(rest@ =~= all.skip(done));
    }
    assert(all.take(done) =~= all);
}

/// Flattens an invocation tree: the lowercased subcommand labels joined by
/// spaces, and the fields of the terminal node under lowercased keys.
pub fn get_command_from_args<V>(root: Node<V>) -> (r: Command<V>)
    ensures
        flattens(root, r),
{
    let mut name = String::new();
    let mut arguments: Vec<(String, V)> = Vec::new();
    let ghost mut collected: Seq<Seq<char>> = seq![];
    let mut current = root;
    let mut first = true;
    loop
        invariant
            first == (collected.len() == 0),
            name@ == joined(collected),
            collected + labels_of(current) == labels_of(root),
            terminal_fields(current) == terminal_fields(root),
            arguments@.len() == 0,
        decreases current,
    {
        let ghost before = current;
        match get_next_command(current) {
            Step::Descend(label, next) => {
                if !first {
                    append(&mut name, " ");
                }
                append(&mut name, &label);
                proof {
                    reveal_strlit(" ");
                    assert(joined(collected.push(label@)) == name@) by {
                        assert(collected.push(label@).drop_last() =~= collected);
                    }
                    assert(collected.push(label@) + labels_of(next) =~= collected + labels_of(before));
                    collected = collected.push(label@);
                }
                current = next;
                first = false;
            },
            Step::Label(label) => {
                if !first {
                    append(&mut name, " ");
                }
                append(&mut name, &label);
                proof {
                    reveal_strlit(" ");
                    assert(joined(collected.push(label@)) == name@) by {
                        assert(collected.push(label@).drop_last() =~= collected);
                    }
                    assert(collected.push(label@) =~= collected + labels_of(before));
                }
                assert(entries_map(arguments@) =~= merged(terminal_fields(root)));
                return Command { name, arguments };
            },
            Step::Arguments(fields) => {
                assert(collected =~= collected + labels_of(before));
                assert(entries_map(arguments@) =~= Map::<Seq<char>, V>::empty());
                merge_arguments(&mut arguments, fields);
                return Command { name, arguments };
            },
            Step::Stop => {
                assert(collected =~= collected + labels_of(before));
                assert(entries_map(arguments@) =~= merged(terminal_fields(root)));
                return Command { name, arguments };
            },
        }
    }
}

/// Flattening is deterministic: two flattenings of the same tree have the
/// same name and the same arguments.
pub proof fn flattening_is_deterministic<V>(root: Node<V>, a: Command<V>, b: Command<V>)
    requires
        flattens(root, a),
        flattens(root, b),
    ensures
        a.name@ == b.name@,
        entries_map(a.arguments@) == entries_map(b.arguments@),
{
}

/// Keys that differ only in case collapse to one lowercased argument, whose
/// value is that of the field iterated last among them.
pub proof fn later_field_wins<V>(fields: Seq<(String, V)>, j: int)
    requires
        0 <= j < fields.len(),
        forall|i: int|
            j < i < fields.len() ==> lower_of(#[trigger] fields[i].0@) != lower_of(fields[j].0@),
    ensures
        merged(fields).contains_key(lower_of(fields[j].0@)),
        merged(fields)[lower_of(fields[j].0@)] == fields[j].1,
    decreases fields.len(),
{
    if j < fields.len() - 1 {
        let shorter = fields.drop_last();
        assert forall|i: int| j < i < shorter.len() implies lower_of(
            #[trigger] shorter[i].0@,
        ) != lower_of(shorter[j].0@) by {
            assert(shorter[i] == fields[i]);
        }
        later_field_wins(shorter, j);
        assert(lower_of(fields[fields.len() - 1].0@) != lower_of(fields[j].0@));
    }
}

} // verus!
