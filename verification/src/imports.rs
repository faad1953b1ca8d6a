//! The import block: which statement comes first, and how one is written.

use crate::result::{keys_distinct, ImportTable};
use crate::strs::{
    clone_strings, concat5, extend_strings, owned, str_eq, str_join, str_less, str_starts_with,
};
use crate::text;
use crate::text::push_deep;
use vstd::prelude::*;

verus! {

/// Whether an import source is a path alias or a relative path.
pub open spec fn is_relative(path: Seq<char>) -> bool {
    text::starts_with(path, "@/"@) || text::starts_with(path, "./"@) || text::starts_with(path, "../"@)
}

/// The group of a source: the reactive framework's own module first, then
/// packages, then aliased and relative paths.
pub open spec fn source_group(path: Seq<char>) -> int {
    if path == "vue"@ {
        0
    } else if is_relative(path) {
        2
    } else {
        1
    }
}

/// Whether an import source is a store of the application.
pub open spec fn is_store_path(path: Seq<char>) -> bool {
    text::starts_with(path, "@/stores/"@)
}

/// Whether an import source is a composable of the application.
pub open spec fn is_composable_path(path: Seq<char>) -> bool {
    text::starts_with(path, "@/composables/"@)
}

/// The place of a source in the alphabet of its group. Store paths stand
/// together with the composable paths, where these have their place.
pub open spec fn source_anchor(path: Seq<char>) -> Seq<char> {
    if is_store_path(path) || is_composable_path(path) {
        "@/composables/"@
    } else {
        path
    }
}

/// Store paths come first among the sources of one place.
pub open spec fn source_tier(path: Seq<char>) -> int {
    if is_store_path(path) {
        0
    } else {
        1
    }
}

/// Whether the statement for source `a` is written before the one for `b`.
///
/// The reactive framework's own module comes first, then packages, then
/// aliased and relative paths. Within a group the alphabet decides, but
/// for store paths: they come straight before the composable paths, all of
/// them, and so before every composable path.
pub open spec fn import_before(a: Seq<char>, b: Seq<char>) -> bool {
    if source_group(a) != source_group(b) {
        source_group(a) < source_group(b)
    } else if source_anchor(a) != source_anchor(b) {
        text::less(source_anchor(a), source_anchor(b))
    } else if source_tier(a) != source_tier(b) {
        source_tier(a) < source_tier(b)
    } else {
        text::less(a, b)
    }
}

/// Where an entry for `path` goes into an ordered table: before every
/// entry that it is written before, scanning back from index `j`.
pub open spec fn import_slot(sorted: ImportTable, path: Seq<char>, j: int) -> int
    decreases j,
{
    if 0 < j <= sorted.len() && import_before(path, sorted[j - 1].0) {
        import_slot(sorted, path, j - 1)
    } else {
        j
    }
}

/// The entries from index `i` on sorted into `acc`.
pub open spec fn ordered_imports_from(table: ImportTable, i: int, acc: ImportTable) -> ImportTable
    decreases table.len() - i,
{
    if i < 0 || i >= table.len() {
        acc
    } else {
        ordered_imports_from(
            table,
            i + 1,
            acc.insert(import_slot(acc, table[i].0, acc.len() as int), table[i]),
        )
    }
}

/// The import table in the order in which its statements are written.
pub open spec fn ordered_imports(table: ImportTable) -> ImportTable {
    ordered_imports_from(table, 0, Seq::empty())
}

/// Where `name` goes into an alphabetical list, scanning back from `j`.
pub open spec fn name_slot(sorted: Seq<Seq<char>>, name: Seq<char>, j: int) -> int
    decreases j,
{
    if 0 < j <= sorted.len() && text::less(name, sorted[j - 1]) {
        name_slot(sorted, name, j - 1)
    } else {
        j
    }
}

/// `sorted` with `name` in its alphabetical place, unless it is there
/// already.
pub open spec fn with_name(sorted: Seq<Seq<char>>, name: Seq<char>) -> Seq<Seq<char>> {
    let j = name_slot(sorted, name, sorted.len() as int);
    if 0 < j <= sorted.len() && sorted[j - 1] == name {
        sorted
    } else {
        sorted.insert(j, name)
    }
}

/// The names from index `i` on sorted into `acc`, each once.
pub open spec fn distinct_names_from(names: Seq<Seq<char>>, i: int, acc: Seq<Seq<char>>) -> Seq<Seq<char>>
    decreases names.len() - i,
{
    if i < 0 || i >= names.len() {
        acc
    } else {
        distinct_names_from(names, i + 1, with_name(acc, names[i]))
    }
}

/// The names from index `i` on sorted into `acc`, repeats kept.
pub open spec fn sorted_names_from(names: Seq<Seq<char>>, i: int, acc: Seq<Seq<char>>) -> Seq<Seq<char>>
    decreases names.len() - i,
{
    if i < 0 || i >= names.len() {
        acc
    } else {
        sorted_names_from(names, i + 1, acc.insert(name_slot(acc, names[i], acc.len() as int), names[i]))
    }
}

/// The names in alphabetical order, repeats kept.
pub open spec fn sorted_names(names: Seq<Seq<char>>) -> Seq<Seq<char>> {
    sorted_names_from(names, 0, Seq::empty())
}

/// The names in alphabetical order, each once.
pub open spec fn distinct_names(names: Seq<Seq<char>>) -> Seq<Seq<char>> {
    distinct_names_from(names, 0, Seq::empty())
}

/// The import statement for the names of one source.
pub open spec fn import_statement(path: Seq<char>, names: Seq<Seq<char>>) -> Seq<char> {
    "import { "@ + text::join(distinct_names(names), ", "@) + " } from '"@ + path + "';"@
}

/// The statements for the entries from index `i` on, appended to `acc`. An
/// entry without names gives none. The names of a source that starts with
/// two underscores are statements already and are taken as they are.
pub open spec fn import_lines_from(table: ImportTable, i: int, acc: Seq<Seq<char>>) -> Seq<Seq<char>>
    decreases table.len() - i,
{
    if i < 0 || i >= table.len() {
        acc
    } else if table[i].1.len() == 0 {
        import_lines_from(table, i + 1, acc)
    } else if text::starts_with(table[i].0, "__"@) {
        import_lines_from(table, i + 1, acc + table[i].1)
    } else {
        import_lines_from(table, i + 1, acc.push(import_statement(table[i].0, table[i].1)))
    }
}

/// The import block of a table, statement by statement.
pub open spec fn import_lines(table: ImportTable) -> Seq<Seq<char>> {
    import_lines_from(ordered_imports(table), 0, Seq::empty())
}

/// Whether a list of names is in strictly ascending order.
pub open spec fn ascending(names: Seq<Seq<char>>) -> bool {
    forall|i: int, j: int| 0 <= i < j < names.len() ==> text::less(#[trigger] names[i], #[trigger] names[j])
}

pub proof fn lemma_name_slot(sorted: Seq<Seq<char>>, name: Seq<char>, j: int)
    requires
        0 <= j <= sorted.len(),
    ensures
        0 <= name_slot(sorted, name, j) <= j,
        name_slot(sorted, name, j) > 0 ==> !text::less(name, sorted[name_slot(sorted, name, j) - 1]),
        forall|m: int| name_slot(sorted, name, j) <= m < j ==> text::less(name, #[trigger] sorted[m]),
    decreases j,
{
    if 0 < j && text::less(name, sorted[j - 1]) {
        lemma_name_slot(sorted, name, j - 1);
    }
}

/// Putting a name into an ascending list keeps the list ascending, and the
/// list then holds the name and what it held before, nothing else.
pub proof fn lemma_with_name(sorted: Seq<Seq<char>>, name: Seq<char>)
    requires
        ascending(sorted),
    ensures
        ascending(with_name(sorted, name)),
        forall|x: Seq<char>| with_name(sorted, name).contains(x) <==> (sorted.contains(x) || x == name),
{
    let j = name_slot(sorted, name, sorted.len() as int);
    lemma_name_slot(sorted, name, sorted.len() as int);
    let out = with_name(sorted, name);
    if 0 < j && sorted[j - 1] == name {
        assert(sorted.contains(name));
    } else {
        assert(out == sorted.insert(j, name));
        assert(out.len() == sorted.len() + 1);
        assert(out[j] == name);
        assert forall|k: int| 0 <= k < out.len() implies (#[trigger] out[k]) == (if k < j {
            sorted[k]
        } else if k == j {
            name
        } else {
            sorted[k - 1]
        }) by {}
        assert forall|p: int, q: int| 0 <= p < q < out.len() implies text::less(
            #[trigger] out[p],
            #[trigger] out[q],
        ) by {
            if q < j {
                assert(out[p] == sorted[p] && out[q] == sorted[q]);
            } else if q == j {
                assert(out[p] == sorted[p]);
                if p == j - 1 {
                    text::lemma_less_connected(sorted[j - 1], name, 0);
                } else {
                    text::lemma_less_connected(sorted[j - 1], name, 0);
                    assert(text::less(sorted[p], sorted[j - 1]));
                    text::lemma_less_transitive(sorted[p], sorted[j - 1], name, 0);
                }
            } else if p == j {
                assert(out[q] == sorted[q - 1]);
            } else if p > j {
                assert(out[p] == sorted[p - 1] && out[q] == sorted[q - 1]);
            } else {
                assert(out[p] == sorted[p] && out[q] == sorted[q - 1]);
                if p < q - 1 {
                    assert(text::less(sorted[p], sorted[q - 1]));
                } else {
                    text::lemma_less_connected(sorted[j - 1], name, 0);
                    text::lemma_less_transitive(sorted[p], name, sorted[q - 1], 0);
                }
            }
        }
        assert forall|x: Seq<char>| out.contains(x) <==> (sorted.contains(x) || x == name) by {
            if out.contains(x) {
                let k = choose|k: int| 0 <= k < out.len() && out[k] == x;
                if k < j {
                    assert(sorted[k] == x);
                } else if k > j {
                    assert(sorted[k - 1] == x);
                }
            }
            if sorted.contains(x) {
                let k = choose|k: int| 0 <= k < sorted.len() && sorted[k] == x;
                if k < j {
                    assert(out[k] == x);
                } else {
                    assert(out[k + 1] == x);
                }
            }
        }
    }
}

/// The names sorted into an ascending list give an ascending list that
/// holds what the list held and every name from index `i` on.
pub proof fn lemma_distinct_names_from(names: Seq<Seq<char>>, i: int, acc: Seq<Seq<char>>)
    requires
        0 <= i <= names.len(),
        ascending(acc),
    ensures
        ascending(distinct_names_from(names, i, acc)),
        forall|x: Seq<char>|
            distinct_names_from(names, i, acc).contains(x) <==> (acc.contains(x) || exists|k: int|
                i <= k < names.len() && names[k] == x),
    decreases names.len() - i,
{
    if i < names.len() {
        lemma_with_name(acc, names[i]);
        let next = with_name(acc, names[i]);
        lemma_distinct_names_from(names, i + 1, next);
        assert forall|x: Seq<char>|
            distinct_names_from(names, i, acc).contains(x) <==> (acc.contains(x) || exists|k: int|
                i <= k < names.len() && names[k] == x) by {
            if acc.contains(x) || (exists|k: int| i <= k < names.len() && names[k] == x) {
                if !acc.contains(x) {
                    let k = choose|k: int| i <= k < names.len() && names[k] == x;
                    if k > i {
                        assert(i + 1 <= k < names.len() && names[k] == x);
                    }
                }
            }
            if distinct_names_from(names, i, acc).contains(x) {
                if !next.contains(x) {
                    let k = choose|k: int| i + 1 <= k < names.len() && names[k] == x;
                    assert(i <= k < names.len() && names[k] == x);
                } else if !acc.contains(x) {
                    assert(names[i] == x);
                }
            }
        }
    }
}

/// Two ascending lists that hold the same names are the same list.
pub proof fn lemma_ascending_unique(a: Seq<Seq<char>>, b: Seq<Seq<char>>)
    requires
        ascending(a),
        ascending(b),
        forall|x: Seq<char>| a.contains(x) <==> b.contains(x),
    ensures
        a == b,
    decreases a.len(),
{
    if a.len() == 0 {
        if b.len() > 0 {
            assert(b.contains(b[0]));
        }
        assert(a =~= b);
    } else {
        assert(a.contains(a[0]));
        assert(b.contains(a[0]));
        assert(b.len() > 0);
        assert(b.contains(b[0]));
        assert(a.contains(b[0]));
        let i = choose|i: int| 0 <= i < b.len() && b[i] == a[0];
        let j = choose|j: int| 0 <= j < a.len() && a[j] == b[0];
        if i > 0 && j > 0 {
            assert(text::less(b[0], b[i]));
            assert(text::less(a[0], a[j]));
            text::lemma_less_transitive(a[0], b[0], a[0], 0);
            text::lemma_less_irreflexive(a[0], 0);
        }
        if i > 0 && j == 0 {
            text::lemma_less_irreflexive(a[0], 0);
            assert(text::less(b[0], b[i]));
        }
        if i == 0 && j > 0 {
            text::lemma_less_irreflexive(a[0], 0);
            assert(text::less(a[0], a[j]));
        }
        assert(a[0] == b[0]);
        let ta = a.drop_first();
        let tb = b.drop_first();
        assert forall|p: int, q: int| 0 <= p < q < ta.len() implies text::less(
            #[trigger] ta[p],
            #[trigger] ta[q],
        ) by {
            assert(ta[p] == a[p + 1] && ta[q] == a[q + 1]);
        }
        assert forall|p: int, q: int| 0 <= p < q < tb.len() implies text::less(
            #[trigger] tb[p],
            #[trigger] tb[q],
        ) by {
            assert(tb[p] == b[p + 1] && tb[q] == b[q + 1]);
        }
        assert forall|x: Seq<char>| ta.contains(x) <==> tb.contains(x) by {
            text::lemma_less_irreflexive(a[0], 0);
            if ta.contains(x) {
                let k = choose|k: int| 0 <= k < ta.len() && ta[k] == x;
                assert(a[k + 1] == x);
                assert(text::less(a[0], a[k + 1]));
                assert(a.contains(x));
                let m = choose|m: int| 0 <= m < b.len() && b[m] == x;
                if m == 0 {
                    assert(x == a[0]);
                } else {
                    assert(tb[m - 1] == x);
                }
            }
            if tb.contains(x) {
                let k = choose|k: int| 0 <= k < tb.len() && tb[k] == x;
                assert(b[k + 1] == x);
                assert(text::less(b[0], b[k + 1]));
                assert(b.contains(x));
                let m = choose|m: int| 0 <= m < a.len() && a[m] == x;
                if m == 0 {
                    assert(x == b[0]);
                } else {
                    assert(ta[m - 1] == x);
                }
            }
        }
        lemma_ascending_unique(ta, tb);
        assert(a =~= seq![a[0]] + ta);
        assert(b =~= seq![b[0]] + tb);
    }
}

/// The import statement of a source does not depend on the order in which
/// the units named what to import, nor on how often a name was given: two
/// lists that hold the same names give the same statement.
pub proof fn lemma_import_statement_ignores_order(path: Seq<char>, one: Seq<Seq<char>>, two: Seq<Seq<char>>)
    requires
        forall|x: Seq<char>| one.contains(x) <==> two.contains(x),
    ensures
        distinct_names(one) == distinct_names(two),
        import_statement(path, one) == import_statement(path, two),
{
    let empty: Seq<Seq<char>> = Seq::empty();
    lemma_distinct_names_from(one, 0, empty);
    lemma_distinct_names_from(two, 0, empty);
    assert forall|x: Seq<char>| distinct_names(one).contains(x) <==> distinct_names(two).contains(x) by {
        assert(!empty.contains(x));
        if distinct_names(one).contains(x) {
            let k = choose|k: int| 0 <= k < one.len() && one[k] == x;
            assert(one.contains(x));
            let m = choose|m: int| 0 <= m < two.len() && two[m] == x;
            assert(0 <= m < two.len() && two[m] == x);
        }
        if distinct_names(two).contains(x) {
            let k = choose|k: int| 0 <= k < two.len() && two[k] == x;
            assert(two.contains(x));
            let m = choose|m: int| 0 <= m < one.len() && one[m] == x;
            assert(0 <= m < one.len() && one[m] == x);
        }
    }
    lemma_ascending_unique(distinct_names(one), distinct_names(two));
}

/// The order of writing is a strict total order: no source is written
/// before itself, of two different sources exactly one is written before
/// the other, and the order is transitive.
pub proof fn lemma_import_before_is_an_order(a: Seq<char>, b: Seq<char>, c: Seq<char>)
    ensures
        !import_before(a, a),
        !(import_before(a, b) && import_before(b, a)),
        a != b ==> import_before(a, b) || import_before(b, a),
        import_before(a, b) && import_before(b, c) ==> import_before(a, c),
{
    let (xa, xb, xc) = (source_anchor(a), source_anchor(b), source_anchor(c));
    text::lemma_less_irreflexive(a, 0);
    text::lemma_less_irreflexive(xa, 0);
    text::lemma_less_irreflexive(xb, 0);
    if a != b {
        text::lemma_less_connected(a, b, 0);
    }
    if xa != xb {
        text::lemma_less_connected(xa, xb, 0);
    }
    if text::less(a, b) && text::less(b, a) {
        text::lemma_less_transitive(a, b, a, 0);
    }
    if text::less(xa, xb) && text::less(xb, xa) {
        text::lemma_less_transitive(xa, xb, xa, 0);
    }
    if text::less(a, b) && text::less(b, c) {
        text::lemma_less_transitive(a, b, c, 0);
    }
    if text::less(xa, xb) && text::less(xb, xc) {
        text::lemma_less_transitive(xa, xb, xc, 0);
    }
}

/// What starts with a text starts with every beginning of that text.
proof fn lemma_starts_with_shorter(path: Seq<char>, long: Seq<char>, short: Seq<char>)
    requires
        text::starts_with(path, long),
        text::starts_with(long, short),
    ensures
        text::starts_with(path, short),
{
    assert(path.subrange(0, short.len() as int) =~= path.subrange(0, long.len() as int).subrange(
        0,
        short.len() as int,
    ));
}

/// Store paths and composable paths are aliased paths, no path is both,
/// and the framework's module is neither aliased nor relative.
pub proof fn lemma_source_kinds(path: Seq<char>)
    ensures
        is_store_path(path) ==> is_relative(path) && !is_composable_path(path),
        is_composable_path(path) ==> is_relative(path),
        is_relative(path) ==> path != "vue"@,
{
    reveal_strlit("vue");
    reveal_strlit("@/");
    reveal_strlit("./");
    reveal_strlit("../");
    reveal_strlit("@/stores/");
    reveal_strlit("@/composables/");
    assert("@/stores/"@.subrange(0, 2) =~= "@/"@);
    assert("@/composables/"@.subrange(0, 2) =~= "@/"@);
    if is_store_path(path) {
        lemma_starts_with_shorter(path, "@/stores/"@, "@/"@);
        assert(path.subrange(0, 9)[2] == path[2]);
        if is_composable_path(path) {
            assert(path.subrange(0, 14)[2] == path[2]);
        }
    }
    if is_composable_path(path) {
        lemma_starts_with_shorter(path, "@/composables/"@, "@/"@);
    }
    if is_relative(path) && path == "vue"@ {
        if text::starts_with(path, "@/"@) {
            assert(path.subrange(0, 2)[0] == path[0]);
        } else if text::starts_with(path, "./"@) {
            assert(path.subrange(0, 2)[0] == path[0]);
        } else {
            assert(path.subrange(0, 3)[0] == path[0]);
        }
    }
}

/// Every store path is written before every composable path; a source of
/// an earlier group is written before a source of a later group; and two
/// packages stand in the order of the alphabet.
pub proof fn lemma_import_order_rules(a: Seq<char>, b: Seq<char>)
    ensures
        is_store_path(a) && is_composable_path(b) ==> import_before(a, b),
        a == "vue"@ && b != "vue"@ ==> import_before(a, b),
        !is_relative(a) && is_relative(b) ==> import_before(a, b),
        source_group(a) == 1 && source_group(b) == 1 ==> import_before(a, b) == text::less(a, b),
{
    lemma_source_kinds(a);
    lemma_source_kinds(b);
}

/// Whether no two entries of a table have the same source.
pub open spec fn sources_distinct(table: ImportTable) -> bool {
    keys_distinct(table)
}

/// Whether the entries of a table stand in the order of writing.
pub open spec fn in_order(table: ImportTable) -> bool {
    forall|i: int, j: int|
        0 <= i < j < table.len() ==> import_before((#[trigger] table[i]).0, (#[trigger] table[j]).0)
}

pub proof fn lemma_import_slot(sorted: ImportTable, path: Seq<char>, j: int)
    requires
        0 <= j <= sorted.len(),
    ensures
        0 <= import_slot(sorted, path, j) <= j,
        import_slot(sorted, path, j) > 0 ==> !import_before(path, sorted[import_slot(sorted, path, j) - 1].0),
        forall|m: int| import_slot(sorted, path, j) <= m < j ==> import_before(path, (#[trigger] sorted[m]).0),
    decreases j,
{
    if 0 < j && import_before(path, sorted[j - 1].0) {
        lemma_import_slot(sorted, path, j - 1);
    }
}

/// Sorting the entries from index `i` on into an ordered table of the
/// entries before them gives an ordered table of the same entries.
pub proof fn lemma_ordered_imports_from(table: ImportTable, i: int, acc: ImportTable)
    requires
        0 <= i <= table.len(),
        sources_distinct(table),
        in_order(acc),
        forall|e: (Seq<char>, Seq<Seq<char>>)|
            acc.contains(e) <==> exists|k: int| 0 <= k < i && table[k] == e,
    ensures
        in_order(ordered_imports_from(table, i, acc)),
        forall|e: (Seq<char>, Seq<Seq<char>>)|
            ordered_imports_from(table, i, acc).contains(e) <==> table.contains(e),
    decreases table.len() - i,
{
    if i < table.len() {
        let x = table[i];
        let slot = import_slot(acc, x.0, acc.len() as int);
        lemma_import_slot(acc, x.0, acc.len() as int);
        let next = acc.insert(slot, x);
        assert forall|k: int| 0 <= k < next.len() implies (#[trigger] next[k]) == (if k < slot {
            acc[k]
        } else if k == slot {
            x
        } else {
            acc[k - 1]
        }) by {}
        // every entry of `acc` is an earlier entry of the table
        assert forall|m: int| 0 <= m < acc.len() implies exists|k: int|
            0 <= k < i && table[k] == #[trigger] acc[m] by {
            assert(acc.contains(acc[m]));
        }
        assert forall|p: int, q: int| 0 <= p < q < next.len() implies import_before(
            (#[trigger] next[p]).0,
            (#[trigger] next[q]).0,
        ) by {
            if q < slot {
                assert(next[p] == acc[p] && next[q] == acc[q]);
            } else if q == slot {
                assert(next[p] == acc[p]);
                let kl = choose|k: int| 0 <= k < i && table[k] == acc[slot - 1];
                lemma_import_before_is_an_order(acc[slot - 1].0, x.0, x.0);
                assert(table[kl].0 != table[i].0);
                if p < slot - 1 {
                    assert(import_before(acc[p].0, acc[slot - 1].0));
                    lemma_import_before_is_an_order(acc[p].0, acc[slot - 1].0, x.0);
                }
            } else if p == slot {
                assert(next[q] == acc[q - 1]);
            } else if p > slot {
                assert(next[p] == acc[p - 1] && next[q] == acc[q - 1]);
            } else {
                assert(next[p] == acc[p] && next[q] == acc[q - 1]);
                if p < q - 1 {
                    assert(import_before(acc[p].0, acc[q - 1].0));
                } else {
                    // p == slot - 1 and q - 1 == slot
                    let kl = choose|k: int| 0 <= k < i && table[k] == acc[p];
                    assert(table[kl].0 != table[i].0);
                    lemma_import_before_is_an_order(acc[p].0, x.0, acc[q - 1].0);
                }
            }
        }
        assert forall|e: (Seq<char>, Seq<Seq<char>>)|
            next.contains(e) <==> exists|k: int| 0 <= k < i + 1 && table[k] == e by {
            if next.contains(e) {
                let m = choose|m: int| 0 <= m < next.len() && next[m] == e;
                if m < slot {
                    assert(acc.contains(acc[m]));
                    let k = choose|k: int| 0 <= k < i && table[k] == e;
                    assert(0 <= k < i + 1 && table[k] == e);
                } else if m == slot {
                    assert(0 <= i < i + 1 && table[i] == e);
                } else {
                    assert(acc.contains(acc[m - 1]));
                    let k = choose|k: int| 0 <= k < i && table[k] == e;
                    assert(0 <= k < i + 1 && table[k] == e);
                }
            }
            if exists|k: int| 0 <= k < i + 1 && table[k] == e {
                let k = choose|k: int| 0 <= k < i + 1 && table[k] == e;
                if k == i {
                    assert(next[slot] == e);
                } else {
                    assert(0 <= k < i && table[k] == e);
                    assert(acc.contains(e));
                    let m = choose|m: int| 0 <= m < acc.len() && acc[m] == e;
                    if m < slot {
                        assert(next[m] == e);
                    } else {
                        assert(next[m + 1] == e);
                    }
                }
            }
        }
        lemma_ordered_imports_from(table, i + 1, next);
    } else {
        assert forall|e: (Seq<char>, Seq<Seq<char>>)| acc.contains(e) <==> table.contains(e) by {
            if table.contains(e) {
                let k = choose|k: int| 0 <= k < table.len() && table[k] == e;
                assert(0 <= k < i && table[k] == e);
            }
            if acc.contains(e) {
                let k = choose|k: int| 0 <= k < i && table[k] == e;
                assert(table[k] == e);
            }
        }
    }
}

/// Two ordered tables of the same entries are the same table.
pub proof fn lemma_in_order_unique(a: ImportTable, b: ImportTable)
    requires
        in_order(a),
        in_order(b),
        forall|e: (Seq<char>, Seq<Seq<char>>)| a.contains(e) <==> b.contains(e),
    ensures
        a == b,
    decreases a.len(),
{
    if a.len() == 0 {
        if b.len() > 0 {
            assert(b.contains(b[0]));
        }
        assert(a =~= b);
    } else {
        assert(a.contains(a[0]));
        assert(b.contains(a[0]));
        assert(b.contains(b[0]));
        assert(a.contains(b[0]));
        let i = choose|i: int| 0 <= i < b.len() && b[i] == a[0];
        let j = choose|j: int| 0 <= j < a.len() && a[j] == b[0];
        lemma_import_before_is_an_order(a[0].0, b[0].0, a[0].0);
        if i > 0 {
            assert(import_before(b[0].0, b[i].0));
        }
        if j > 0 {
            assert(import_before(a[0].0, a[j].0));
        }
        assert(a[0] == b[0]);
        let ta = a.drop_first();
        let tb = b.drop_first();
        assert forall|p: int, q: int| 0 <= p < q < ta.len() implies import_before(
            (#[trigger] ta[p]).0,
            (#[trigger] ta[q]).0,
        ) by {
            assert(ta[p] == a[p + 1] && ta[q] == a[q + 1]);
        }
        assert forall|p: int, q: int| 0 <= p < q < tb.len() implies import_before(
            (#[trigger] tb[p]).0,
            (#[trigger] tb[q]).0,
        ) by {
            assert(tb[p] == b[p + 1] && tb[q] == b[q + 1]);
        }
        assert forall|e: (Seq<char>, Seq<Seq<char>>)| ta.contains(e) <==> tb.contains(e) by {
            if ta.contains(e) {
                let k = choose|k: int| 0 <= k < ta.len() && ta[k] == e;
                assert(a[k + 1] == e);
                assert(import_before(a[0].0, a[k + 1].0));
                assert(a.contains(e));
                let m = choose|m: int| 0 <= m < b.len() && b[m] == e;
                if m > 0 {
                    assert(tb[m - 1] == e);
                }
            }
            if tb.contains(e) {
                let k = choose|k: int| 0 <= k < tb.len() && tb[k] == e;
                assert(b[k + 1] == e);
                assert(import_before(b[0].0, b[k + 1].0));
                assert(b.contains(e));
                let m = choose|m: int| 0 <= m < a.len() && a[m] == e;
                if m > 0 {
                    assert(ta[m - 1] == e);
                }
            }
        }
        lemma_in_order_unique(ta, tb);
        assert(a =~= seq![a[0]] + ta);
        assert(b =~= seq![b[0]] + tb);
    }
}

/// The import block does not depend on the order in which the sources came
/// into the table: two tables that hold the same entries, each source
/// once, give the same block.
pub proof fn lemma_import_block_ignores_table_order(one: ImportTable, two: ImportTable)
    requires
        sources_distinct(one),
        sources_distinct(two),
        forall|e: (Seq<char>, Seq<Seq<char>>)| one.contains(e) <==> two.contains(e),
    ensures
        ordered_imports(one) == ordered_imports(two),
        import_lines(one) == import_lines(two),
{
    let empty: ImportTable = Seq::empty();
    assert forall|e: (Seq<char>, Seq<Seq<char>>)|
        empty.contains(e) <==> exists|k: int| 0 <= k < 0 && one[k] == e by {}
    assert forall|e: (Seq<char>, Seq<Seq<char>>)|
        empty.contains(e) <==> exists|k: int| 0 <= k < 0 && two[k] == e by {}
    lemma_ordered_imports_from(one, 0, empty);
    lemma_ordered_imports_from(two, 0, empty);
    assert forall|e: (Seq<char>, Seq<Seq<char>>)|
        ordered_imports(one).contains(e) <==> ordered_imports(two).contains(e) by {
        assert(ordered_imports(one).contains(e) <==> one.contains(e));
        assert(ordered_imports(two).contains(e) <==> two.contains(e));
    }
    lemma_in_order_unique(ordered_imports(one), ordered_imports(two));
}

/// The statements come out in the order of writing: in the ordered table
/// of a table with each source once, every entry stands before the entries
/// that it is written before, and no entry is lost or added.
pub proof fn lemma_imports_come_out_in_order(table: ImportTable)
    requires
        sources_distinct(table),
    ensures
        in_order(ordered_imports(table)),
        forall|e: (Seq<char>, Seq<Seq<char>>)| ordered_imports(table).contains(e) <==> table.contains(e),
{
    let empty: ImportTable = Seq::empty();
    assert forall|e: (Seq<char>, Seq<Seq<char>>)|
        empty.contains(e) <==> exists|k: int| 0 <= k < 0 && table[k] == e by {}
    lemma_ordered_imports_from(table, 0, empty);
}

fn group_of(path: &str) -> (r: u8)
    ensures
        r == source_group(path@),
{
    if str_eq(path, "vue") {
        0
    } else if str_starts_with(path, "@/") || str_starts_with(path, "./") || str_starts_with(path, "../") {
        2
    } else {
        1
    }
}

fn anchor_of(path: &str) -> (r: String)
    ensures
        r@ == source_anchor(path@),
{
    if str_starts_with(path, "@/stores/") || str_starts_with(path, "@/composables/") {
        owned("@/composables/")
    } else {
        owned(path)
    }
}

fn tier_of(path: &str) -> (r: u8)
    ensures
        r == source_tier(path@),
{
    if str_starts_with(path, "@/stores/") {
        0
    } else {
        1
    }
}

/// Tells whether the statement for `a` is written before the one for `b`.
pub fn comes_before(a: &str, b: &str) -> (r: bool)
    ensures
        r == import_before(a@, b@),
{
    let (ga, gb) = (group_of(a), group_of(b));
    if ga != gb {
        return ga < gb;
    }
    let (xa, xb) = (anchor_of(a), anchor_of(b));
    if !str_eq(xa.as_str(), xb.as_str()) {
        return str_less(xa.as_str(), xb.as_str());
    }
    let (ta, tb) = (tier_of(a), tier_of(b));
    if ta != tb {
        ta < tb
    } else {
        str_less(a, b)
    }
}

/// Puts the entries of an import table in the order of writing.
pub fn order_imports(table: &Vec<(String, Vec<String>)>) -> (r: Vec<(String, Vec<String>)>)
    ensures
        r.deep_view() == ordered_imports(table.deep_view()),
{
    let mut out: Vec<(String, Vec<String>)> = Vec::new();
    assert(out.deep_view() =~= Seq::empty());
    let ghost all = table.deep_view();
    let mut i: usize = 0;
    while i < table.len()
        invariant
            i <= table.len(),
            all == table.deep_view(),
            ordered_imports_from(all, 0, Seq::empty()) == ordered_imports_from(all, i as int, out.deep_view()),
        decreases table.len() - i,
    {
        let entry = (table[i].0.clone(), clone_strings(&table[i].1));
        assert(all[i as int] == entry.deep_view());
        let mut j: usize = out.len();
        while j > 0 && comes_before(entry.0.as_str(), out[j - 1].0.as_str())
            invariant
                j <= out.len(),
                import_slot(out.deep_view(), entry.0@, out.len() as int) == import_slot(
                    out.deep_view(),
                    entry.0@,
                    j as int,
                ),
            decreases j,
        {
            assert(out.deep_view()[j - 1].0 == out@[j - 1].0@);
            j -= 1;
        }
        assert(j > 0 ==> out.deep_view()[j - 1].0 == out@[j - 1].0@);
        let ghost before = out.deep_view();
        let ghost e = entry.deep_view();
        out.insert(j, entry);
        assert(out.deep_view() =~= before.insert(j as int, e));
        i += 1;
    }
    out
}

/// Puts names in alphabetical order.
pub fn sort_names(names: &Vec<String>) -> (r: Vec<String>)
    ensures
        r.deep_view() == sorted_names(names.deep_view()),
{
    let mut out: Vec<String> = Vec::new();
    assert(out.deep_view() =~= Seq::empty());
    let ghost all = names.deep_view();
    let mut i: usize = 0;
    while i < names.len()
        invariant
            i <= names.len(),
            all == names.deep_view(),
            sorted_names_from(all, 0, Seq::empty()) == sorted_names_from(all, i as int, out.deep_view()),
        decreases names.len() - i,
    {
        let name = names[i].clone();
        assert(all[i as int] == name@);
        let mut j: usize = out.len();
        while j > 0 && str_less(name.as_str(), out[j - 1].as_str())
            invariant
                j <= out.len(),
                name_slot(out.deep_view(), name@, out.len() as int) == name_slot(
                    out.deep_view(),
                    name@,
                    j as int,
                ),
            decreases j,
        {
            assert(out.deep_view()[j - 1] == out@[j - 1]@);
            j -= 1;
        }
        assert(j > 0 ==> out.deep_view()[j - 1] == out@[j - 1]@);
        let ghost before = out.deep_view();
        out.insert(j, name);
        assert(out.deep_view() =~= before.insert(j as int, name@));
        i += 1;
    }
    out
}

/// Puts names in alphabetical order and drops repeats: the result is in
/// strictly ascending order and holds exactly the names given.
pub fn sort_distinct(names: &Vec<String>) -> (r: Vec<String>)
    ensures
        r.deep_view() == distinct_names(names.deep_view()),
        ascending(r.deep_view()),
        forall|x: Seq<char>| r.deep_view().contains(x) <==> names.deep_view().contains(x),
{
    proof {
        let empty: Seq<Seq<char>> = Seq::empty();
        lemma_distinct_names_from(names.deep_view(), 0, empty);
        assert forall|x: Seq<char>|
            distinct_names(names.deep_view()).contains(x) <==> names.deep_view().contains(x) by {
            assert(!empty.contains(x));
            if names.deep_view().contains(x) {
                let k = choose|k: int| 0 <= k < names.deep_view().len() && names.deep_view()[k] == x;
                assert(0 <= k < names.deep_view().len() && names.deep_view()[k] == x);
            }
        }
    }
    let mut out: Vec<String> = Vec::new();
    assert(out.deep_view() =~= Seq::empty());
    let ghost all = names.deep_view();
    let mut i: usize = 0;
    while i < names.len()
        invariant
            i <= names.len(),
            all == names.deep_view(),
            distinct_names_from(all, 0, Seq::empty()) == distinct_names_from(all, i as int, out.deep_view()),
        decreases names.len() - i,
    {
        let name = names[i].clone();
        assert(all[i as int] == name@);
        let mut j: usize = out.len();
        while j > 0 && str_less(name.as_str(), out[j - 1].as_str())
            invariant
                j <= out.len(),
                name_slot(out.deep_view(), name@, out.len() as int) == name_slot(
                    out.deep_view(),
                    name@,
                    j as int,
                ),
            decreases j,
        {
            assert(out.deep_view()[j - 1] == out@[j - 1]@);
            j -= 1;
        }
        assert(j > 0 ==> out.deep_view()[j - 1] == out@[j - 1]@);
        let present = j > 0 && str_eq(out[j - 1].as_str(), name.as_str());
        if !present {
            let ghost before = out.deep_view();
            out.insert(j, name);
            assert(out.deep_view() =~= before.insert(j as int, name@));
        }
        i += 1;
    }
    out
}

/// Writes the import statement for the names of one source.
pub fn format_import_statement(path: &str, names: &Vec<String>) -> (r: String)
    ensures
        r@ == import_statement(path@, names.deep_view()),
{
    let list = str_join(&sort_distinct(names), ", ");
    concat5("import { ", list.as_str(), " } from '", path, "';")
}

/// Writes the import block of a table: its statements in order.
pub fn format_imports(imports_map: &Vec<(String, Vec<String>)>) -> (r: Vec<String>)
    ensures
        r.deep_view() == import_lines(imports_map.deep_view()),
{
    let ordered = order_imports(imports_map);
    let mut out: Vec<String> = Vec::new();
    assert(out.deep_view() =~= Seq::empty());
    let ghost all = ordered.deep_view();
    let mut i: usize = 0;
    while i < ordered.len()
        invariant
            i <= ordered.len(),
            all == ordered.deep_view(),
            import_lines_from(all, 0, Seq::empty()) == import_lines_from(all, i as int, out.deep_view()),
        decreases ordered.len() - i,
    {
        let path = ordered[i].0.as_str();
        let names = &ordered[i].1;
        assert(all[i as int] == (path@, names.deep_view()));
        if names.len() == 0 {
        } else if str_starts_with(path, "__") {
            extend_strings(&mut out, names);
        } else {
            push_deep(&mut out, format_import_statement(path, names));
        }
        i += 1;
    }
    out
}

} // verus!
