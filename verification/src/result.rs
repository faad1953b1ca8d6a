//! The result model: how partial results are built and merged.

use crate::model::{ReplacementModel, ResultModel, TemplateReplacement, TransformationResult};
use crate::strs::{clone_strings, extend_strings, str_eq};
use crate::text::push_deep;
use vstd::prelude::*;

verus! {

/// An import table: source and the names imported from it.
pub type ImportTable = Seq<(Seq<char>, Seq<Seq<char>>)>;

/// A table of proposed reactive declarations: property name, declaration
/// text and priority.
pub type RefTable = Seq<(Seq<char>, (Seq<char>, u8))>;

/// The index of the first entry at or after `i` whose key is `key`, or the
/// length of the table.
pub open spec fn key_index<V>(table: Seq<(Seq<char>, V)>, key: Seq<char>, i: int) -> int
    decreases table.len() - i,
{
    if i < 0 || i >= table.len() {
        table.len() as int
    } else if table[i].0 == key {
        i
    } else {
        key_index(table, key, i + 1)
    }
}

/// The table with `names` appended to the entry of `path`; the entry is
/// created at the end when there is none.
pub open spec fn add_names(table: ImportTable, path: Seq<char>, names: Seq<Seq<char>>) -> ImportTable {
    let i = key_index(table, path, 0);
    if 0 <= i < table.len() {
        table.update(i, (path, table[i].1 + names))
    } else {
        table.push((path, names))
    }
}

/// `acc` after the entries of `other` from index `i` on were added to it.
pub open spec fn merge_imports_from(acc: ImportTable, other: ImportTable, i: int) -> ImportTable
    decreases other.len() - i,
{
    if i < 0 || i >= other.len() {
        acc
    } else {
        merge_imports_from(add_names(acc, other[i].0, other[i].1), other, i + 1)
    }
}

/// The table without its first entry for `key`.
pub open spec fn remove_key<V>(table: Seq<(Seq<char>, V)>, key: Seq<char>) -> Seq<(Seq<char>, V)> {
    let i = key_index(table, key, 0);
    if 0 <= i < table.len() {
        table.remove(i)
    } else {
        table
    }
}

/// A proposal meets the table: it is kept when its name is new, it takes
/// the place of the present entry when its priority is strictly higher, and
/// it is dropped otherwise.
pub open spec fn propose(refs: RefTable, name: Seq<char>, declaration: Seq<char>, priority: u8) -> RefTable {
    let i = key_index(refs, name, 0);
    if 0 <= i < refs.len() {
        if refs[i].1.1 >= priority {
            refs
        } else {
            refs.update(i, (name, (declaration, priority)))
        }
    } else {
        refs.push((name, (declaration, priority)))
    }
}

/// The entry for `name` is set, whatever was there.
pub open spec fn assign(refs: RefTable, name: Seq<char>, declaration: Seq<char>, priority: u8) -> RefTable {
    let i = key_index(refs, name, 0);
    if 0 <= i < refs.len() {
        refs.update(i, (name, (declaration, priority)))
    } else {
        refs.push((name, (declaration, priority)))
    }
}

/// `acc` after the proposals of `other` from index `i` on met it in order.
pub open spec fn merge_refs_from(acc: RefTable, other: RefTable, i: int) -> RefTable
    decreases other.len() - i,
{
    if i < 0 || i >= other.len() {
        acc
    } else {
        merge_refs_from(propose(acc, other[i].0, other[i].1.0, other[i].1.1), other, i + 1)
    }
}

/// The result that holds nothing.
pub open spec fn empty_result() -> ResultModel {
    ResultModel {
        imports_to_add: Seq::empty(),
        imports_to_remove: Seq::empty(),
        setup: Seq::empty(),
        reactive_state: Seq::empty(),
        computed_properties: Seq::empty(),
        methods: Seq::empty(),
        watchers: Seq::empty(),
        lifecycle_hooks: Seq::empty(),
        template_replacements: Seq::empty(),
        additional_scripts: Seq::empty(),
        skip_data_properties: Seq::empty(),
        data_refs: Seq::empty(),
        resolved_identifiers: Seq::empty(),
    }
}

/// `a` with `b` merged into it: lists are concatenated, import names are
/// gathered per source, and proposals for reactive declarations meet by
/// priority.
pub open spec fn merged(a: ResultModel, b: ResultModel) -> ResultModel {
    ResultModel {
        imports_to_add: merge_imports_from(a.imports_to_add, b.imports_to_add, 0),
        imports_to_remove: a.imports_to_remove + b.imports_to_remove,
        setup: a.setup + b.setup,
        reactive_state: a.reactive_state + b.reactive_state,
        computed_properties: a.computed_properties + b.computed_properties,
        methods: a.methods + b.methods,
        watchers: a.watchers + b.watchers,
        lifecycle_hooks: a.lifecycle_hooks + b.lifecycle_hooks,
        template_replacements: a.template_replacements + b.template_replacements,
        additional_scripts: a.additional_scripts + b.additional_scripts,
        skip_data_properties: a.skip_data_properties + b.skip_data_properties,
        data_refs: merge_refs_from(a.data_refs, b.data_refs, 0),
        resolved_identifiers: a.resolved_identifiers + b.resolved_identifiers,
    }
}

impl ResultModel {
    /// With `names` added to what is imported from `path`.
    pub open spec fn with_imports(self, path: Seq<char>, names: Seq<Seq<char>>) -> ResultModel {
        ResultModel { imports_to_add: add_names(self.imports_to_add, path, names), ..self }
    }

    /// With `name` added to what is imported from `path`.
    pub open spec fn with_import(self, path: Seq<char>, name: Seq<char>) -> ResultModel {
        self.with_imports(path, seq![name])
    }

    /// With the import source `path` marked for removal.
    pub open spec fn without_source(self, path: Seq<char>) -> ResultModel {
        ResultModel { imports_to_remove: self.imports_to_remove.push(path), ..self }
    }

    pub open spec fn with_setup(self, line: Seq<char>) -> ResultModel {
        ResultModel { setup: self.setup.push(line), ..self }
    }

    pub open spec fn with_setup_lines(self, lines: Seq<Seq<char>>) -> ResultModel {
        ResultModel { setup: self.setup + lines, ..self }
    }

    pub open spec fn with_reactive_state(self, line: Seq<char>) -> ResultModel {
        ResultModel { reactive_state: self.reactive_state.push(line), ..self }
    }

    pub open spec fn with_computed(self, line: Seq<char>) -> ResultModel {
        ResultModel { computed_properties: self.computed_properties.push(line), ..self }
    }

    pub open spec fn with_computed_lines(self, lines: Seq<Seq<char>>) -> ResultModel {
        ResultModel { computed_properties: self.computed_properties + lines, ..self }
    }

    pub open spec fn with_method(self, line: Seq<char>) -> ResultModel {
        ResultModel { methods: self.methods.push(line), ..self }
    }

    pub open spec fn with_method_lines(self, lines: Seq<Seq<char>>) -> ResultModel {
        ResultModel { methods: self.methods + lines, ..self }
    }

    pub open spec fn with_watcher(self, line: Seq<char>) -> ResultModel {
        ResultModel { watchers: self.watchers.push(line), ..self }
    }

    pub open spec fn with_watcher_lines(self, lines: Seq<Seq<char>>) -> ResultModel {
        ResultModel { watchers: self.watchers + lines, ..self }
    }

    pub open spec fn with_lifecycle_hook(self, line: Seq<char>) -> ResultModel {
        ResultModel { lifecycle_hooks: self.lifecycle_hooks.push(line), ..self }
    }

    pub open spec fn with_lifecycle_lines(self, lines: Seq<Seq<char>>) -> ResultModel {
        ResultModel { lifecycle_hooks: self.lifecycle_hooks + lines, ..self }
    }

    pub open spec fn with_replacement(self, find: Seq<char>, replace: Seq<char>) -> ResultModel {
        ResultModel {
            template_replacements: self.template_replacements.push(ReplacementModel { find, replace }),
            ..self
        }
    }

    pub open spec fn with_replacements(self, pairs: Seq<ReplacementModel>) -> ResultModel {
        ResultModel { template_replacements: self.template_replacements + pairs, ..self }
    }

    pub open spec fn with_script(self, block: Seq<char>) -> ResultModel {
        ResultModel { additional_scripts: self.additional_scripts.push(block), ..self }
    }

    /// With the declaration for `name` set, whatever was proposed before.
    pub open spec fn with_ref(self, name: Seq<char>, declaration: Seq<char>, priority: u8) -> ResultModel {
        ResultModel { data_refs: assign(self.data_refs, name, declaration, priority), ..self }
    }
}

/// The declaration and priority that the table holds for `name`.
pub open spec fn lookup_ref(refs: RefTable, name: Seq<char>) -> Option<(Seq<char>, u8)> {
    let i = key_index(refs, name, 0);
    if 0 <= i < refs.len() {
        Some(refs[i].1)
    } else {
        None
    }
}

pub proof fn lemma_key_index_bounds<V>(table: Seq<(Seq<char>, V)>, key: Seq<char>, i: int)
    requires
        0 <= i <= table.len(),
    ensures
        i <= key_index(table, key, i) <= table.len(),
        key_index(table, key, i) < table.len() ==> table[key_index(table, key, i)].0 == key,
        forall|j: int| i <= j < key_index(table, key, i) ==> (#[trigger] table[j]).0 != key,
    decreases table.len() - i,
{
    if i < table.len() && table[i].0 != key {
        lemma_key_index_bounds(table, key, i + 1);
    }
}

/// When two proposals for one property meet a table, whichever comes first,
/// the one with the strictly higher priority is the one that stays, unless
/// the table already held a declaration of at least that priority.
pub proof fn lemma_priority_wins(
    refs: RefTable,
    name: Seq<char>,
    low: Seq<char>,
    low_priority: u8,
    high: Seq<char>,
    high_priority: u8,
)
    requires
        low_priority < high_priority,
        match lookup_ref(refs, name) {
            Some(held) => held.1 < high_priority,
            None => true,
        },
    ensures
        lookup_ref(propose(propose(refs, name, low, low_priority), name, high, high_priority), name)
            == Some((high, high_priority)),
        lookup_ref(propose(propose(refs, name, high, high_priority), name, low, low_priority), name)
            == Some((high, high_priority)),
{
    lemma_key_index_bounds(refs, name, 0);
    let i = key_index(refs, name, 0);
    let a = propose(refs, name, low, low_priority);
    let b = propose(refs, name, high, high_priority);
    lemma_key_index_same(refs, a, name, 0);
    lemma_key_index_same(refs, b, name, 0);
    lemma_key_index_bounds(a, name, 0);
    lemma_key_index_bounds(b, name, 0);
    let a2 = propose(a, name, high, high_priority);
    let b2 = propose(b, name, low, low_priority);
    lemma_key_index_same(a, a2, name, 0);
    lemma_key_index_same(b, b2, name, 0);
}

/// Two tables with the same keys up to the length of the first, the second
/// being at most one entry longer with `key` as the key of that entry, find
/// `key` at the same index.
proof fn lemma_key_index_same<V>(t: Seq<(Seq<char>, V)>, u: Seq<(Seq<char>, V)>, key: Seq<char>, i: int)
    requires
        0 <= i <= t.len(),
        t.len() <= u.len() <= t.len() + 1,
        forall|j: int| 0 <= j < t.len() ==> (#[trigger] t[j]).0 == u[j].0,
        u.len() == t.len() + 1 ==> u[t.len() as int].0 == key,
    ensures
        key_index(u, key, i) == key_index(t, key, i),
    decreases t.len() - i,
{
    if i < t.len() {
        if t[i].0 != key {
            lemma_key_index_same(t, u, key, i + 1);
        }
    }
}

/// Whether every key stands in the table once.
pub open spec fn keys_distinct<V>(table: Seq<(Seq<char>, V)>) -> bool {
    forall|i: int, j: int|
        0 <= i < table.len() && 0 <= j < table.len() && i != j ==> (#[trigger] table[i]).0 != (
        #[trigger] table[j]).0
}

impl ResultModel {
    /// Whether the two tables of the result hold each key once.
    pub open spec fn well_formed(self) -> bool {
        keys_distinct(self.imports_to_add) && keys_distinct(self.data_refs)
    }
}

/// Where a key is found in a table that has the keys of another table in
/// the same places and at most one entry more.
pub proof fn lemma_key_index_after<V>(t: Seq<(Seq<char>, V)>, u: Seq<(Seq<char>, V)>, key: Seq<char>, i: int)
    requires
        0 <= i <= t.len(),
        t.len() <= u.len() <= t.len() + 1,
        forall|j: int| 0 <= j < t.len() ==> (#[trigger] t[j]).0 == u[j].0,
    ensures
        key_index(u, key, i) == (if key_index(t, key, i) < t.len() {
            key_index(t, key, i)
        } else if u.len() > t.len() && u[t.len() as int].0 == key {
            t.len() as int
        } else {
            u.len() as int
        }),
    decreases t.len() - i,
{
    if i < t.len() {
        assert(t[i].0 == u[i].0);
        if t[i].0 != key {
            lemma_key_index_after(t, u, key, i + 1);
        }
    } else if u.len() > t.len() {
        assert(key_index(u, key, i + 1) == u.len());
    }
}

/// Setting the entry of a key, in its place or at the end when the key is
/// new, keeps every key once.
pub proof fn lemma_set_keeps_keys_distinct<V>(table: Seq<(Seq<char>, V)>, key: Seq<char>, value: V)
    requires
        keys_distinct(table),
    ensures
        ({
            let i = key_index(table, key, 0);
            keys_distinct(
                if 0 <= i < table.len() {
                    table.update(i, (key, value))
                } else {
                    table.push((key, value))
                },
            )
        }),
{
    lemma_key_index_bounds(table, key, 0);
    let i = key_index(table, key, 0);
    let out = if 0 <= i < table.len() {
        table.update(i, (key, value))
    } else {
        table.push((key, value))
    };
    assert forall|a: int, b: int| 0 <= a < out.len() && 0 <= b < out.len() && a != b implies (
    #[trigger] out[a]).0 != (#[trigger] out[b]).0 by {
        if i < table.len() {
            assert(out[a].0 == table[a].0 && out[b].0 == table[b].0);
        } else {
            if a < table.len() {
                assert(out[a] == table[a]);
            }
            if b < table.len() {
                assert(out[b] == table[b]);
            }
        }
    }
}

/// Adding names, proposing, assigning and removing keep every key once.
pub proof fn lemma_table_steps_keep_keys_distinct(
    imports: ImportTable,
    refs: RefTable,
    key: Seq<char>,
    names: Seq<Seq<char>>,
    declaration: Seq<char>,
    priority: u8,
)
    ensures
        keys_distinct(imports) ==> keys_distinct(add_names(imports, key, names)) && keys_distinct(
            remove_key(imports, key),
        ),
        keys_distinct(refs) ==> keys_distinct(propose(refs, key, declaration, priority)) && keys_distinct(
            assign(refs, key, declaration, priority),
        ),
{
    if keys_distinct(imports) {
        let i = key_index(imports, key, 0);
        lemma_key_index_bounds(imports, key, 0);
        if 0 <= i < imports.len() {
            lemma_set_keeps_keys_distinct(imports, key, imports[i].1 + names);
            let out = imports.remove(i);
            assert forall|a: int, b: int| 0 <= a < out.len() && 0 <= b < out.len() && a != b implies (
            #[trigger] out[a]).0 != (#[trigger] out[b]).0 by {
                let a0 = if a < i {
                    a
                } else {
                    a + 1
                };
                let b0 = if b < i {
                    b
                } else {
                    b + 1
                };
                assert(out[a] == imports[a0] && out[b] == imports[b0]);
            }
        } else {
            lemma_set_keeps_keys_distinct(imports, key, names);
        }
    }
    if keys_distinct(refs) {
        lemma_set_keeps_keys_distinct(refs, key, (declaration, priority));
    }
}

/// Merging keeps every key of the table once.
pub proof fn lemma_merge_imports_keeps_keys_distinct(acc: ImportTable, other: ImportTable, i: int)
    requires
        keys_distinct(acc),
        0 <= i,
    ensures
        keys_distinct(merge_imports_from(acc, other, i)),
    decreases other.len() - i,
{
    if i < other.len() {
        lemma_table_steps_keep_keys_distinct(acc, Seq::empty(), other[i].0, other[i].1, Seq::empty(), 0);
        lemma_merge_imports_keeps_keys_distinct(add_names(acc, other[i].0, other[i].1), other, i + 1);
    }
}

/// Merging keeps every name of the table once.
pub proof fn lemma_merge_refs_keeps_keys_distinct(acc: RefTable, other: RefTable, i: int)
    requires
        keys_distinct(acc),
        0 <= i,
    ensures
        keys_distinct(merge_refs_from(acc, other, i)),
    decreases other.len() - i,
{
    if i < other.len() {
        lemma_table_steps_keep_keys_distinct(
            Seq::empty(),
            acc,
            other[i].0,
            Seq::empty(),
            other[i].1.0,
            other[i].1.1,
        );
        lemma_merge_refs_keeps_keys_distinct(propose(acc, other[i].0, other[i].1.0, other[i].1.1), other, i + 1);
    }
}

/// Of two proposals the one with the higher priority, and the first on a
/// tie; the one there is when there is only one.
pub open spec fn stronger(held: Option<(Seq<char>, u8)>, proposed: Option<(Seq<char>, u8)>) -> Option<
    (Seq<char>, u8),
> {
    match (held, proposed) {
        (None, _) => proposed,
        (_, None) => held,
        (Some(h), Some(p)) => if h.1 >= p.1 {
            held
        } else {
            proposed
        },
    }
}

/// The proposal that the entries of a table from index `i` on hold for
/// `name`.
pub open spec fn lookup_ref_from(refs: RefTable, name: Seq<char>, i: int) -> Option<(Seq<char>, u8)> {
    let j = key_index(refs, name, i);
    if 0 <= j < refs.len() {
        Some(refs[j].1)
    } else {
        None
    }
}

/// After a proposal met the table, the table holds for the proposal's name
/// the stronger of what it held and the proposal, and for every other name
/// what it held.
pub proof fn lemma_propose_lookup(
    refs: RefTable,
    name: Seq<char>,
    declaration: Seq<char>,
    priority: u8,
    k: Seq<char>,
)
    ensures
        lookup_ref(propose(refs, name, declaration, priority), k) == if k == name {
            stronger(lookup_ref(refs, k), Some((declaration, priority)))
        } else {
            lookup_ref(refs, k)
        },
{
    lemma_key_index_bounds(refs, name, 0);
    lemma_key_index_bounds(refs, k, 0);
    let out = propose(refs, name, declaration, priority);
    lemma_key_index_after(refs, out, k, 0);
    lemma_key_index_bounds(out, k, 0);
}

/// After the proposals of a table that holds each name once met another
/// table, that table holds for every name the stronger of what it held and
/// what was proposed.
pub proof fn lemma_merge_refs_lookup(acc: RefTable, other: RefTable, i: int, k: Seq<char>)
    requires
        keys_distinct(other),
        0 <= i <= other.len(),
    ensures
        lookup_ref(merge_refs_from(acc, other, i), k) == stronger(lookup_ref(acc, k), lookup_ref_from(other, k, i)),
    decreases other.len() - i,
{
    if i < other.len() {
        let next = propose(acc, other[i].0, other[i].1.0, other[i].1.1);
        lemma_propose_lookup(acc, other[i].0, other[i].1.0, other[i].1.1, k);
        lemma_merge_refs_lookup(next, other, i + 1, k);
        lemma_key_index_bounds(other, k, i + 1);
        if other[i].0 == k {
            let j = key_index(other, k, i + 1);
            if j < other.len() {
                assert(other[j].0 == other[i].0);
            }
        }
    }
}

/// A merge keeps each import source and each property name once, whatever
/// is merged in.
pub proof fn lemma_merge_keeps_well_formed(a: ResultModel, b: ResultModel)
    requires
        a.well_formed(),
    ensures
        merged(a, b).well_formed(),
{
    lemma_merge_imports_keeps_keys_distinct(a.imports_to_add, b.imports_to_add, 0);
    lemma_merge_refs_keeps_keys_distinct(a.data_refs, b.data_refs, 0);
}

/// The merge rule for whole results: after a merge, the table of reactive
/// declarations holds for every property name the stronger of the proposal
/// that the result held and the proposal that the merged result brought,
/// provided the merged result names each property once.
pub proof fn lemma_merge_keeps_the_stronger(a: ResultModel, b: ResultModel, k: Seq<char>)
    requires
        keys_distinct(b.data_refs),
    ensures
        lookup_ref(merged(a, b).data_refs, k) == stronger(lookup_ref(a.data_refs, k), lookup_ref(b.data_refs, k)),
        a.well_formed() ==> merged(a, b).well_formed(),
{
    lemma_merge_refs_lookup(a.data_refs, b.data_refs, 0, k);
    if a.well_formed() {
        lemma_merge_keeps_well_formed(a, b);
    }
}

/// The index of the first entry whose key is `key`, or the length.
pub fn find_key<V: DeepView>(table: &Vec<(String, V)>, key: &str) -> (i: usize)
    ensures
        i == key_index(table.deep_view(), key@, 0),
        i <= table.len(),
{
    let mut i: usize = 0;
    while i < table.len()
        invariant
            i <= table.len(),
            key_index(table.deep_view(), key@, 0) == key_index(table.deep_view(), key@, i as int),
        decreases table.len() - i,
    {
        assert(table.deep_view()[i as int].0 == table@[i as int].0@);
        if str_eq(table[i].0.as_str(), key) {
            return i;
        }
        i += 1;
    }
    i
}

/// Appends `names` to the entry of `path`, creating it when there is none.
pub fn table_add_names(table: &mut Vec<(String, Vec<String>)>, path: &str, names: &Vec<String>)
    ensures
        final(table).deep_view() == add_names(old(table).deep_view(), path@, names.deep_view()),
        keys_distinct(old(table).deep_view()) ==> keys_distinct(final(table).deep_view()),
{
    proof {
        lemma_table_steps_keep_keys_distinct(
            table.deep_view(),
            Seq::empty(),
            path@,
            names.deep_view(),
            Seq::empty(),
            0,
        );
    }
    let i = find_key(table, path);
    if i < table.len() {
        let mut all = clone_strings(&table[i].1);
        extend_strings(&mut all, names);
        let ghost before = table.deep_view();
        table.set(i, (path.to_owned(), all));
        assert(table.deep_view() =~= before.update(
            i as int,
            (path@, before[i as int].1 + names.deep_view()),
        ));
    } else {
        let ghost before = table.deep_view();
        table.push((path.to_owned(), clone_strings(names)));
        assert(table.deep_view() =~= before.push((path@, names.deep_view())));
    }
}

/// Lets a proposal meet the table.
pub fn table_propose(table: &mut Vec<(String, (String, u8))>, name: &str, declaration: &str, priority: u8)
    ensures
        final(table).deep_view() == propose(old(table).deep_view(), name@, declaration@, priority),
        keys_distinct(old(table).deep_view()) ==> keys_distinct(final(table).deep_view()),
{
    proof {
        lemma_table_steps_keep_keys_distinct(
            Seq::empty(),
            table.deep_view(),
            name@,
            Seq::empty(),
            declaration@,
            priority,
        );
    }
    let i = find_key(table, name);
    let ghost before = table.deep_view();
    if i < table.len() {
        if table[i].1.1 >= priority {
        } else {
            table.set(i, (name.to_owned(), (declaration.to_owned(), priority)));
            assert(table.deep_view() =~= before.update(i as int, (name@, (declaration@, priority))));
        }
    } else {
        table.push((name.to_owned(), (declaration.to_owned(), priority)));
        assert(table.deep_view() =~= before.push((name@, (declaration@, priority))));
    }
}

/// Sets the entry for `name`.
pub fn table_assign(table: &mut Vec<(String, (String, u8))>, name: &str, declaration: &str, priority: u8)
    ensures
        final(table).deep_view() == assign(old(table).deep_view(), name@, declaration@, priority),
        keys_distinct(old(table).deep_view()) ==> keys_distinct(final(table).deep_view()),
{
    proof {
        lemma_table_steps_keep_keys_distinct(
            Seq::empty(),
            table.deep_view(),
            name@,
            Seq::empty(),
            declaration@,
            priority,
        );
    }
    let i = find_key(table, name);
    let ghost before = table.deep_view();
    if i < table.len() {
        table.set(i, (name.to_owned(), (declaration.to_owned(), priority)));
        assert(table.deep_view() =~= before.update(i as int, (name@, (declaration@, priority))));
    } else {
        table.push((name.to_owned(), (declaration.to_owned(), priority)));
        assert(table.deep_view() =~= before.push((name@, (declaration@, priority))));
    }
}

/// Removes the first entry for `key`.
pub fn table_remove(table: &mut Vec<(String, Vec<String>)>, key: &str)
    ensures
        final(table).deep_view() == remove_key(old(table).deep_view(), key@),
        keys_distinct(old(table).deep_view()) ==> keys_distinct(final(table).deep_view()),
{
    proof {
        lemma_table_steps_keep_keys_distinct(
            table.deep_view(),
            Seq::empty(),
            key@,
            Seq::empty(),
            Seq::empty(),
            0,
        );
    }
    let i = find_key(table, key);
    let ghost before = table.deep_view();
    if i < table.len() {
        table.remove(i);
        assert(table.deep_view() =~= before.remove(i as int));
    }
}

/// Merges the import table `other` into `table`.
pub fn table_merge_imports(table: &mut Vec<(String, Vec<String>)>, other: &Vec<(String, Vec<String>)>)
    ensures
        final(table).deep_view() == merge_imports_from(old(table).deep_view(), other.deep_view(), 0),
        keys_distinct(old(table).deep_view()) ==> keys_distinct(final(table).deep_view()),
{
    proof {
        if keys_distinct(table.deep_view()) {
            lemma_merge_imports_keeps_keys_distinct(table.deep_view(), other.deep_view(), 0);
        }
    }
    let mut i: usize = 0;
    while i < other.len()
        invariant
            i <= other.len(),
            merge_imports_from(old(table).deep_view(), other.deep_view(), 0) == merge_imports_from(
                table.deep_view(),
                other.deep_view(),
                i as int,
            ),
        decreases other.len() - i,
    {
        assert(other.deep_view()[i as int] == (other@[i as int].0@, other@[i as int].1.deep_view()));
        table_add_names(table, other[i].0.as_str(), &other[i].1);
        i += 1;
    }
}

/// Lets the proposals of `other` meet `table`, in order.
pub fn table_merge_refs(table: &mut Vec<(String, (String, u8))>, other: &Vec<(String, (String, u8))>)
    ensures
        final(table).deep_view() == merge_refs_from(old(table).deep_view(), other.deep_view(), 0),
        keys_distinct(old(table).deep_view()) ==> keys_distinct(final(table).deep_view()),
{
    proof {
        if keys_distinct(table.deep_view()) {
            lemma_merge_refs_keeps_keys_distinct(table.deep_view(), other.deep_view(), 0);
        }
    }
    let mut i: usize = 0;
    while i < other.len()
        invariant
            i <= other.len(),
            merge_refs_from(old(table).deep_view(), other.deep_view(), 0) == merge_refs_from(
                table.deep_view(),
                other.deep_view(),
                i as int,
            ),
        decreases other.len() - i,
    {
        assert(other.deep_view()[i as int] == (
            other@[i as int].0@,
            (other@[i as int].1.0@, other@[i as int].1.1),
        ));
        table_propose(table, other[i].0.as_str(), other[i].1.0.as_str(), other[i].1.1);
        i += 1;
    }
}

/// Appends copies of the replacements of `src` to `dst`.
pub fn extend_replacements(dst: &mut Vec<TemplateReplacement>, src: &Vec<TemplateReplacement>)
    ensures
        final(dst).deep_view() == old(dst).deep_view() + src.deep_view(),
{
    let mut i: usize = 0;
    assert(dst.deep_view() =~= old(dst).deep_view() + src.deep_view().subrange(0, 0));
    while i < src.len()
        invariant
            i <= src.len(),
            dst.deep_view() == old(dst).deep_view() + src.deep_view().subrange(0, i as int),
        decreases src.len() - i,
    {
        let item = TemplateReplacement { find: src[i].find.clone(), replace: src[i].replace.clone() };
        assert(item.deep_view() == src.deep_view()[i as int]);
        push_deep(dst, item);
        i += 1;
        assert(dst.deep_view() =~= old(dst).deep_view() + src.deep_view().subrange(0, i as int));
    }
    assert(src.deep_view().subrange(0, src.len() as int) =~= src.deep_view());
}

impl TransformationResult {
    /// A result that holds nothing.
    pub fn new() -> (r: Self)
        ensures
            r.deep_view() == empty_result(),
            r.deep_view().well_formed(),
    {
        let r = TransformationResult {
            imports_to_add: Vec::new(),
            imports_to_remove: Vec::new(),
            setup: Vec::new(),
            reactive_state: Vec::new(),
            computed_properties: Vec::new(),
            methods: Vec::new(),
            watchers: Vec::new(),
            lifecycle_hooks: Vec::new(),
            template_replacements: Vec::new(),
            additional_scripts: Vec::new(),
            skip_data_properties: Vec::new(),
            data_refs: Vec::new(),
            resolved_identifiers: Vec::new(),
        };
        proof {
            let m = r.deep_view();
            assert(m.imports_to_add =~= Seq::empty());
            assert(m.imports_to_remove =~= Seq::empty());
            assert(m.setup =~= Seq::empty());
            assert(m.reactive_state =~= Seq::empty());
            assert(m.computed_properties =~= Seq::empty());
            assert(m.methods =~= Seq::empty());
            assert(m.watchers =~= Seq::empty());
            assert(m.lifecycle_hooks =~= Seq::empty());
            assert(m.template_replacements =~= Seq::empty());
            assert(m.additional_scripts =~= Seq::empty());
            assert(m.skip_data_properties =~= Seq::empty());
            assert(m.data_refs =~= Seq::empty());
            assert(m.resolved_identifiers =~= Seq::empty());
        }
        r
    }

    /// Merges `other` into this result.
    pub fn merge(&mut self, other: TransformationResult)
        ensures
            final(self).deep_view() == merged(old(self).deep_view(), other.deep_view()),
            old(self).deep_view().well_formed() ==> final(self).deep_view().well_formed(),
    {
        table_merge_imports(&mut self.imports_to_add, &other.imports_to_add);
        extend_strings(&mut self.imports_to_remove, &other.imports_to_remove);
        extend_strings(&mut self.setup, &other.setup);
        extend_strings(&mut self.reactive_state, &other.reactive_state);
        extend_strings(&mut self.computed_properties, &other.computed_properties);
        extend_strings(&mut self.methods, &other.methods);
        extend_strings(&mut self.watchers, &other.watchers);
        extend_strings(&mut self.lifecycle_hooks, &other.lifecycle_hooks);
        extend_replacements(&mut self.template_replacements, &other.template_replacements);
        extend_strings(&mut self.additional_scripts, &other.additional_scripts);
        extend_strings(&mut self.skip_data_properties, &other.skip_data_properties);
        extend_strings(&mut self.resolved_identifiers, &other.resolved_identifiers);
        table_merge_refs(&mut self.data_refs, &other.data_refs);
    }

    /// Adds one name to import from `path`.
    pub fn add_import(&mut self, path: &str, import_item: &str)
        ensures
            final(self).deep_view() == old(self).deep_view().with_import(path@, import_item@),
            old(self).deep_view().well_formed() ==> final(self).deep_view().well_formed(),
    {
        let mut names: Vec<String> = Vec::new();
        names.push(import_item.to_owned());
        assert(names.deep_view() =~= seq![import_item@]);
        table_add_names(&mut self.imports_to_add, path, &names);
    }

    /// Adds several names to import from `path`.
    pub fn add_imports(&mut self, path: &str, import_items: &Vec<String>)
        ensures
            final(self).deep_view() == old(self).deep_view().with_imports(path@, import_items.deep_view()),
            old(self).deep_view().well_formed() ==> final(self).deep_view().well_formed(),
    {
        table_add_names(&mut self.imports_to_add, path, import_items);
    }

    /// Adds a line to the setup category.
    pub fn add_setup(&mut self, content: String)
        ensures
            final(self).deep_view() == old(self).deep_view().with_setup(content@),
    {
        push_deep(&mut self.setup, content);
    }

    /// Adds a line to the reactive-state category.
    pub fn add_reactive_state(&mut self, content: String)
        ensures
            final(self).deep_view() == old(self).deep_view().with_reactive_state(content@),
    {
        push_deep(&mut self.reactive_state, content);
    }

    /// Adds a line to the methods category.
    pub fn add_method(&mut self, content: String)
        ensures
            final(self).deep_view() == old(self).deep_view().with_method(content@),
    {
        push_deep(&mut self.methods, content);
    }

    /// Adds a line to the watchers category.
    pub fn add_watcher(&mut self, content: String)
        ensures
            final(self).deep_view() == old(self).deep_view().with_watcher(content@),
    {
        push_deep(&mut self.watchers, content);
    }

    /// Adds a line to the lifecycle-hooks category.
    pub fn add_lifecycle_hook(&mut self, content: String)
        ensures
            final(self).deep_view() == old(self).deep_view().with_lifecycle_hook(content@),
    {
        push_deep(&mut self.lifecycle_hooks, content);
    }

    /// Adds a line to the computed category.
    pub fn add_computed_property(&mut self, content: String)
        ensures
            final(self).deep_view() == old(self).deep_view().with_computed(content@),
    {
        push_deep(&mut self.computed_properties, content);
    }

    /// Adds a line of setup code; it goes to the setup category.
    pub fn add_setup_code(&mut self, content: String)
        ensures
            final(self).deep_view() == old(self).deep_view().with_setup(content@),
    {
        push_deep(&mut self.setup, content);
    }

    /// Adds lines of setup code; they go to the setup category.
    pub fn extend_setup_code(&mut self, content: Vec<String>)
        ensures
            final(self).deep_view() == old(self).deep_view().with_setup_lines(content.deep_view()),
    {
        extend_strings(&mut self.setup, &content);
    }

    /// Adds a literal find and replace pair for the template.
    pub fn add_template_replacement(&mut self, find: &str, replace: &str)
        ensures
            final(self).deep_view() == old(self).deep_view().with_replacement(find@, replace@),
    {
        push_deep(
            &mut self.template_replacements,
            TemplateReplacement { find: find.to_owned(), replace: replace.to_owned() },
        );
    }

    /// Adds lines to the computed category.
    pub fn extend_computed(&mut self, lines: &Vec<String>)
        ensures
            final(self).deep_view() == old(self).deep_view().with_computed_lines(lines.deep_view()),
    {
        extend_strings(&mut self.computed_properties, lines);
    }

    /// Adds lines to the methods category.
    pub fn extend_methods(&mut self, lines: &Vec<String>)
        ensures
            final(self).deep_view() == old(self).deep_view().with_method_lines(lines.deep_view()),
    {
        extend_strings(&mut self.methods, lines);
    }

    /// Adds lines to the watchers category.
    pub fn extend_watchers(&mut self, lines: &Vec<String>)
        ensures
            final(self).deep_view() == old(self).deep_view().with_watcher_lines(lines.deep_view()),
    {
        extend_strings(&mut self.watchers, lines);
    }

    /// Adds lines to the lifecycle-hooks category.
    pub fn extend_lifecycle_hooks(&mut self, lines: &Vec<String>)
        ensures
            final(self).deep_view() == old(self).deep_view().with_lifecycle_lines(lines.deep_view()),
    {
        extend_strings(&mut self.lifecycle_hooks, lines);
    }

    /// Adds find and replace pairs for the template.
    pub fn extend_template_replacements(&mut self, pairs: &Vec<TemplateReplacement>)
        ensures
            final(self).deep_view() == old(self).deep_view().with_replacements(pairs.deep_view()),
    {
        extend_replacements(&mut self.template_replacements, pairs);
    }

    /// Adds a script block to append after the main one.
    pub fn add_additional_script(&mut self, block: String)
        ensures
            final(self).deep_view() == old(self).deep_view().with_script(block@),
    {
        push_deep(&mut self.additional_scripts, block);
    }

    /// Marks an import source for removal.
    pub fn remove_import_source(&mut self, path: &str)
        ensures
            final(self).deep_view() == old(self).deep_view().without_source(path@),
    {
        push_deep(&mut self.imports_to_remove, path.to_owned());
    }

    /// Sets the reactive declaration proposed for `name`.
    pub fn set_data_ref(&mut self, name: &str, declaration: &str, priority: u8)
        ensures
            final(self).deep_view() == old(self).deep_view().with_ref(name@, declaration@, priority),
            old(self).deep_view().well_formed() ==> final(self).deep_view().well_formed(),
    {
        table_assign(&mut self.data_refs, name, declaration, priority);
    }

    /// All script lines in the order of assembly: setup, reactive state,
    /// computed, methods, watchers, lifecycle hooks.
    pub fn get_all_setup_code(&self) -> (r: Vec<String>)
        ensures
            r.deep_view() == self.deep_view().setup + self.deep_view().reactive_state
                + self.deep_view().computed_properties + self.deep_view().methods
                + self.deep_view().watchers + self.deep_view().lifecycle_hooks,
    {
        let mut r = clone_strings(&self.setup);
        extend_strings(&mut r, &self.reactive_state);
        extend_strings(&mut r, &self.computed_properties);
        extend_strings(&mut r, &self.methods);
        extend_strings(&mut r, &self.watchers);
        extend_strings(&mut r, &self.lifecycle_hooks);
        r
    }
}

impl Default for TransformationResult {
    fn default() -> (r: Self)
        ensures
            r.deep_view() == empty_result(),
    {
        TransformationResult::new()
    }
}

} // verus!
