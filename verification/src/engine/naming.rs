//! The table names of views.
//!
//! Every view has a valid table name of its own. A view has the sanitized base
//! name of its files wherever no other view has a better claim to it, and a name
//! that no base name sanitizes to otherwise.
use crate::text::{chars_of, texts};
use vstd::hash_map::StringHashMap;
use vstd::prelude::*;

verus! {

/// What a character of a base name becomes in a table name. What would end a
/// quoted name, or part a plain one, is replaced.
pub open spec fn sanitized_char(c: char) -> Seq<char> {
    if c == '.' || c == '-' || c == '"' {
        "_"@
    } else if c == '$' {
        "_D_"@
    } else {
        seq![c]
    }
}

/// A text with each of its characters replaced as in a table name.
pub open spec fn sanitized_chars(name: Seq<char>) -> Seq<char>
    decreases name.len(),
{
    if name.len() == 0 {
        Seq::empty()
    } else {
        sanitized_chars(name.drop_last()) + sanitized_char(name.last())
    }
}

/// The table name of a base name. The empty base name has one, too.
pub open spec fn sanitized(name: Seq<char>) -> Seq<char> {
    if name.len() == 0 {
        "_"@
    } else {
        sanitized_chars(name)
    }
}

/// A character in lower case, as far as it is ASCII.
pub open spec fn folded_char(c: char) -> char {
    if 'A' <= c <= 'Z' {
        (c as u8 + 32) as char
    } else {
        c
    }
}

/// A text in lower case, as far as it is ASCII. The database takes table names
/// for the same if they agree in this form.
pub open spec fn folded(name: Seq<char>) -> Seq<char> {
    Seq::new(name.len(), |i: int| folded_char(name[i]))
}

/// Whether one of the names is, for the database, the given one.
pub open spec fn taken(name: Seq<char>, names: Seq<Seq<char>>) -> bool {
    exists|i: int| 0 <= i < names.len() && folded(#[trigger] names[i]) == folded(name)
}

/// The number of characters of the names together.
pub open spec fn total_len(names: Seq<Seq<char>>) -> nat
    decreases names.len(),
{
    if names.len() == 0 {
        0
    } else {
        total_len(names.drop_last()) + names.last().len()
    }
}

/// A name that is taken is no longer than the names together.
pub proof fn lemma_taken_is_short(name: Seq<char>, names: Seq<Seq<char>>)
    requires
        taken(name, names),
    ensures
        name.len() <= total_len(names),
    decreases names.len(),
{
    let i = choose|i: int| 0 <= i < names.len() && folded(#[trigger] names[i]) == folded(name);
    assert(folded(names[i]).len() == folded(name).len());
    let front = names.drop_last();
    if i < front.len() {
        assert(folded(front[i]) == folded(name));
        lemma_taken_is_short(name, front);
    }
}

/// A name with as many underscores behind it as it takes to differ from the others.
pub open spec fn fresh_name(name: Seq<char>, names: Seq<Seq<char>>) -> Seq<char>
    decreases total_len(names) + 1 - name.len(),
{
    if taken(name, names) {
        proof {
            lemma_taken_is_short(name, names);
        }
        fresh_name(name.push('_'), names)
    } else {
        name
    }
}

/// Whether a base name can stand in double quotes as it is.
pub open spec fn is_plain(base: Seq<char>) -> bool {
    base.len() > 0 && !base.contains('"')
}

/// The sanitized form of a base name, as the database compares it.
pub open spec fn table_key(bases: Seq<Seq<char>>, k: int) -> Seq<char> {
    folded(sanitized(bases[k]))
}

/// Which of two base names has the better claim to the name that both sanitize to:
/// one that can stand in double quotes as it is, and then the first.
pub open spec fn outranks(bases: Seq<Seq<char>>, i: int, k: int) -> bool {
    if is_plain(bases[i]) == is_plain(bases[k]) {
        i < k
    } else {
        is_plain(bases[i])
    }
}

/// Whether a base name has the best claim to its sanitized form.
pub open spec fn keeps_name(bases: Seq<Seq<char>>, k: int) -> bool {
    forall|i: int| #![trigger bases[i]]
        0 <= i < bases.len() && i != k && table_key(bases, i) == table_key(bases, k) ==> outranks(
            bases,
            k,
            i,
        )
}

/// The sanitized forms of all base names.
pub open spec fn sanitized_all(bases: Seq<Seq<char>>) -> Seq<Seq<char>> {
    Seq::new(bases.len(), |i: int| sanitized(bases[i]))
}

/// The first `n` table names. A made-up name differs from all sanitized forms and
/// from the names in front of it.
pub open spec fn first_names(bases: Seq<Seq<char>>, n: nat) -> Seq<Seq<char>>
    decreases n,
{
    if n == 0 {
        Seq::empty()
    } else {
        let names = first_names(bases, (n - 1) as nat);
        let name = sanitized(bases[n - 1]);
        names.push(
            if keeps_name(bases, n - 1) {
                name
            } else {
                fresh_name(name, sanitized_all(bases) + names)
            },
        )
    }
}

/// The table names of base names.
pub open spec fn table_names(bases: Seq<Seq<char>>) -> Seq<Seq<char>> {
    first_names(bases, bases.len())
}

/// Sanitizes the base name of Parquet files into a valid table name: one that is
/// not empty and can stand in double quotes.
pub fn sanitize_table_name(name: &str) -> (table_name: String)
    ensures
        table_name@ == sanitized(name@),
        table_name@.len() > 0,
        !table_name@.contains('"'),
{
    proof {
        law_table_name_is_valid(name@);
    }
    let chars = chars_of(name);
    if chars.len() == 0 {
        return "_".to_string();
    }
    let mut out = String::new();
    let mut i: usize = 0;
    while i < chars.len()
        invariant
            i <= chars.len(),
            out@ == sanitized_chars(chars@.take(i as int)),
        decreases chars.len() - i,
    {
        let c = chars[i];
        assert(chars@.take(i + 1).drop_last() =~= chars@.take(i as int));
        if c == '.' || c == '-' || c == '"' {
            out.append("_");
        } else if c == '$' {
            out.append("_D_");
        } else {
            out.push(c);
            assert(out@ =~= sanitized_chars(chars@.take(i as int)) + seq![c]);
        }
        i = i + 1;
    }
    assert(chars@.take(i as int) =~= chars@);
    out
}

fn fold(name: &str) -> (text: String)
    ensures
        text@ == folded(name@),
{
    let chars = chars_of(name);
    let mut text = String::new();
    let mut i: usize = 0;
    while i < chars.len()
        invariant
            i <= chars.len(),
            text@ =~= folded(chars@.take(i as int)),
        decreases chars.len() - i,
    {
        let c = chars[i];
        if 'A' <= c && c <= 'Z' {
            text.push((c as u8 + 32) as char);
        } else {
            text.push(c);
        }
        i = i + 1;
    }
    assert(chars@.take(i as int) =~= chars@);
    text
}

/// Whether a map holds the names, in the form in which the database compares them.
spec fn holds_names(index: Map<Seq<char>, ()>, names: Seq<Seq<char>>) -> bool {
    forall|name: Seq<char>| #[trigger] index.contains_key(folded(name)) <==> taken(name, names)
}

/// The name, told apart from those that were given before.
fn make_fresh(name: String, index: &StringHashMap<()>, Ghost(names): Ghost<Seq<Seq<char>>>) -> (out:
    String)
    requires
        holds_names(index@, names),
    ensures
        out@ == fresh_name(name@, names),
{
    let mut out = name;
    let ghost first = out@;
    let mut key = fold(out.as_str());
    while index.contains_key(key.as_str())
        invariant
            holds_names(index@, names),
            key@ == folded(out@),
            fresh_name(first, names) == fresh_name(out@, names),
        decreases total_len(names) + 1 - out@.len(),
    {
        proof {
            assert(taken(out@, names));
            lemma_taken_is_short(out@, names);
        }
        out.push('_');
        key = fold(out.as_str());
    }
    assert(!taken(out@, names));
    out
}

proof fn lemma_holds_one_more(
    index: Map<Seq<char>, ()>,
    names: Seq<Seq<char>>,
    name: Seq<char>,
)
    requires
        holds_names(index, names),
    ensures
        holds_names(index.insert(folded(name), ()), names.push(name)),
{
    let all = names.push(name);
    let after = index.insert(folded(name), ());
    assert forall|n: Seq<char>| #[trigger] after.contains_key(folded(n)) <==> taken(n, all) by {
        if taken(n, names) {
            let i = choose|i: int| 0 <= i < names.len() && folded(#[trigger] names[i]) == folded(n);
            assert(folded(all[i]) == folded(n));
        }
        if folded(n) == folded(name) {
            assert(folded(all[names.len() as int]) == folded(n));
        }
        if taken(n, all) {
            let i = choose|i: int| 0 <= i < all.len() && folded(#[trigger] all[i]) == folded(n);
            if i < names.len() {
                assert(folded(names[i]) == folded(n));
                assert(taken(n, names));
            }
        }
        assert(index.contains_key(folded(n)) <==> taken(n, names));
    }
}

fn is_plain_name(base: &str) -> (yes: bool)
    ensures
        yes == is_plain(base@),
{
    let chars = chars_of(base);
    let mut i: usize = 0;
    while i < chars.len()
        invariant
            i <= chars.len(),
            chars@ == base@,
            forall|k: int| 0 <= k < i ==> chars@[k] != '"',
        decreases chars.len() - i,
    {
        if chars[i] == '"' {
            assert(chars@.contains(chars@[i as int]));
            return false;
        }
        i = i + 1;
    }
    chars.len() > 0
}

/// Whether a map gives, for each of the first `n` base names, the one with the
/// best claim among them to its sanitized form.
spec fn owns(owners: Map<Seq<char>, usize>, bases: Seq<Seq<char>>, n: int) -> bool {
    &&& forall|key: Seq<char>| #[trigger] owners.contains_key(key) ==> owners[key] < n && table_key(
        bases,
        owners[key] as int,
    ) == key
    &&& forall|k: int| #![trigger bases[k]]
        0 <= k < n ==> {
            let key = table_key(bases, k);
            &&& owners.contains_key(key)
            &&& owners[key] == k || outranks(bases, owners[key] as int, k)
        }
}

proof fn lemma_owner_keeps(owners: Map<Seq<char>, usize>, bases: Seq<Seq<char>>, k: int)
    requires
        owns(owners, bases, bases.len() as int),
        0 <= k < bases.len(),
    ensures
        owners.contains_key(table_key(bases, k)),
        owners[table_key(bases, k)] == k <==> keeps_name(bases, k),
{
    let key = table_key(bases, k);
    let o = owners[key] as int;
    assert(owners.contains_key(key));
    assert(table_key(bases, o) == key);
    if o == k {
        assert forall|i: int| #![trigger bases[i]]
            0 <= i < bases.len() && i != k && table_key(bases, i) == table_key(bases, k) implies outranks(
            bases,
            k,
            i,
        ) by {
            assert(owners.contains_key(table_key(bases, i)));
        }
    } else {
        assert(outranks(bases, o, k));
        assert(!outranks(bases, k, o));
    }
}

/// The base name with the best claim to each sanitized form.
fn find_owners(bases: &Vec<String>, keys: &Vec<String>) -> (owners: StringHashMap<usize>)
    requires
        keys.len() == bases.len(),
        forall|k: int| 0 <= k < keys.len() ==> (#[trigger] keys@[k])@ == table_key(texts(bases@), k),
    ensures
        owns(owners@, texts(bases@), bases.len() as int),
{
    let ghost all = texts(bases@);
    let mut owners: StringHashMap<usize> = StringHashMap::new();
    let mut i: usize = 0;
    while i < bases.len()
        invariant
            i <= bases.len(),
            keys.len() == bases.len(),
            all == texts(bases@),
            forall|k: int| 0 <= k < keys.len() ==> (#[trigger] keys@[k])@ == table_key(all, k),
            owns(owners@, all, i as int),
        decreases bases.len() - i,
    {
        let ghost before = owners@;
        let ghost key = table_key(all, i as int);
        assert(keys@[i as int]@ == key);
        let claims = match owners.get(keys[i].as_str()) {
            None => true,
            Some(o) => is_plain_name(bases[i].as_str()) && !is_plain_name(bases[*o].as_str()),
        };
        if claims {
            owners.insert(keys[i].clone(), i);
        }
        assert forall|k: int| #![trigger all[k]] 0 <= k < i + 1 implies {
            let kk = table_key(all, k);
            &&& owners@.contains_key(kk)
            &&& owners@[kk] == k || outranks(all, owners@[kk] as int, k)
        } by {
            if k < i {
                assert(before.contains_key(table_key(all, k)));
            }
        }
        i = i + 1;
    }
    owners
}

/// The table names of base names.
pub fn name_tables(bases: &Vec<String>) -> (names: Vec<String>)
    ensures
        texts(names@) == table_names(texts(bases@)),
{
    let ghost all = texts(bases@);
    let mut wanted: Vec<String> = Vec::new();
    let mut keys: Vec<String> = Vec::new();
    let mut index: StringHashMap<()> = StringHashMap::new();
    let mut i: usize = 0;
    while i < bases.len()
        invariant
            i <= bases.len(),
            all == texts(bases@),
            wanted.len() == i,
            keys.len() == i,
            forall|k: int| 0 <= k < i ==> (#[trigger] wanted@[k])@ == sanitized(all[k]),
            forall|k: int| 0 <= k < i ==> (#[trigger] keys@[k])@ == table_key(all, k),
            holds_names(index@, sanitized_all(all).take(i as int)),
        decreases bases.len() - i,
    {
        let name = sanitize_table_name(bases[i].as_str());
        let key = fold(name.as_str());
        proof {
            lemma_holds_one_more(index@, sanitized_all(all).take(i as int), name@);
            assert(sanitized_all(all).take(i + 1) =~= sanitized_all(all).take(i as int).push(name@));
        }
        index.insert(key.clone(), ());
        wanted.push(name);
        keys.push(key);
        i = i + 1;
    }
    assert(sanitized_all(all).take(i as int) =~= sanitized_all(all) + first_names(all, 0));
    let owners = find_owners(bases, &keys);
    let mut names: Vec<String> = Vec::new();
    let mut i: usize = 0;
    for wanted_name in iter: wanted
        invariant
            iter.seq() == wanted@,
            i == iter.index(),
            all == texts(bases@),
            wanted.len() == bases.len(),
            keys.len() == bases.len(),
            forall|k: int| 0 <= k < wanted.len() ==> (#[trigger] wanted@[k])@ == sanitized(
                all[k],
            ),
            forall|k: int| 0 <= k < keys.len() ==> (#[trigger] keys@[k])@ == table_key(all, k),
            owns(owners@, all, bases.len() as int),
            texts(names@) == first_names(all, i as nat),
            holds_names(index@, sanitized_all(all) + first_names(all, i as nat)),
    {
        let ghost given = first_names(all, i as nat);
        assert(wanted_name@ == sanitized(all[i as int]));
        assert(keys@[i as int]@ == table_key(all, i as int));
        proof {
            lemma_owner_keeps(owners@, all, i as int);
        }
        let keeps = match owners.get(keys[i].as_str()) {
            Some(o) => *o == i,
            None => false,
        };
        let name = if keeps {
            wanted_name
        } else {
            make_fresh(wanted_name, &index, Ghost(sanitized_all(all) + given))
        };
        proof {
            lemma_holds_one_more(index@, sanitized_all(all) + given, name@);
            assert((sanitized_all(all) + given).push(name@) =~= sanitized_all(all) + given.push(
                name@,
            ));
            assert(first_names(all, (i + 1) as nat) == given.push(name@));
        }
        index.insert(fold(name.as_str()), ());
        let ghost before = names@;
        names.push(name);
        assert(texts(names@) =~= texts(before).push(name@));
        i = i + 1;
    }
    names
}

/// Whether a character stays as it is in a table name.
pub open spec fn is_clean_char(c: char) -> bool {
    c != '.' && c != '-' && c != '$' && c != '"'
}

proof fn lemma_sanitized_chars(name: Seq<char>)
    ensures
        sanitized_chars(name).len() >= name.len(),
        forall|i: int|
            0 <= i < sanitized_chars(name).len() ==> is_clean_char(#[trigger] sanitized_chars(name)[i]),
    decreases name.len(),
{
    reveal_strlit("_");
    reveal_strlit("_D_");
    if name.len() > 0 {
        lemma_sanitized_chars(name.drop_last());
        let front = sanitized_chars(name.drop_last());
        let back = sanitized_char(name.last());
        assert forall|i: int| 0 <= i < sanitized_chars(name).len() implies is_clean_char(
            #[trigger] sanitized_chars(name)[i],
        ) by {
            if i < front.len() {
                assert(sanitized_chars(name)[i] == front[i]);
            } else {
                assert(sanitized_chars(name)[i] == back[i - front.len()]);
            }
        }
    }
}

/// The sanitized form of any base name is a valid table name: it is not empty
/// and holds no double quote, nor a dot, a hyphen or a dollar sign.
pub proof fn law_table_name_is_valid(name: Seq<char>)
    ensures
        sanitized(name).len() > 0,
        !sanitized(name).contains('"'),
        !sanitized(name).contains('.'),
        !sanitized(name).contains('-'),
        !sanitized(name).contains('$'),
{
    reveal_strlit("_");
    lemma_sanitized_chars(name);
    assert forall|i: int| 0 <= i < sanitized(name).len() implies is_clean_char(
        #[trigger] sanitized(name)[i],
    ) by {
        if name.len() > 0 {
            assert(is_clean_char(sanitized_chars(name)[i]));
        }
    }
}

proof fn lemma_clean_chars_are_kept(name: Seq<char>)
    requires
        forall|i: int| 0 <= i < name.len() ==> is_clean_char(#[trigger] name[i]),
    ensures
        sanitized_chars(name) == name,
    decreases name.len(),
{
    if name.len() > 0 {
        let front = name.drop_last();
        assert(is_clean_char(name[name.len() - 1]));
        assert forall|i: int| 0 <= i < front.len() implies is_clean_char(#[trigger] front[i]) by {
            assert(is_clean_char(name[i]));
        }
        lemma_clean_chars_are_kept(front);
        assert(front + seq![name.last()] =~= name);
    }
}

/// A name that is not empty and holds no dot, hyphen, dollar sign or double quote
/// is its own table name.
pub proof fn law_clean_name_is_kept(name: Seq<char>)
    requires
        name.len() > 0,
        !name.contains('.'),
        !name.contains('-'),
        !name.contains('$'),
        !name.contains('"'),
    ensures
        sanitized(name) == name,
{
    assert forall|i: int| 0 <= i < name.len() implies is_clean_char(#[trigger] name[i]) by {
        assert(name.contains(name[i]));
    }
    lemma_clean_chars_are_kept(name);
}

/// Sanitizing a table name changes nothing.
pub proof fn law_sanitize_is_idempotent(name: Seq<char>)
    ensures
        sanitized(sanitized(name)) == sanitized(name),
{
    law_table_name_is_valid(name);
    law_clean_name_is_kept(sanitized(name));
}

proof fn lemma_fresh_name(name: Seq<char>, names: Seq<Seq<char>>)
    ensures
        !taken(fresh_name(name, names), names),
        fresh_name(name, names).len() >= name.len(),
        forall|c: char|
            c != '_' && #[trigger] fresh_name(name, names).contains(c) ==> name.contains(c),
    decreases total_len(names) + 1 - name.len(),
{
    reveal_strlit("_");
    if taken(name, names) {
        lemma_taken_is_short(name, names);
        lemma_fresh_name(name.push('_'), names);
        assert forall|c: char| c != '_' && #[trigger] fresh_name(name, names).contains(c) implies
            name.contains(c) by {
            let longer = name.push('_');
            assert(longer.contains(c));
            let i = choose|i: int| 0 <= i < longer.len() && longer[i] == c;
            assert(name[i] == c);
        }
    }
}

/// The table names of a prefix are a prefix of the table names.
proof fn lemma_first_names(bases: Seq<Seq<char>>, n: nat, m: nat)
    requires
        m <= n,
    ensures
        first_names(bases, n).len() == n,
        first_names(bases, n).take(m as int) == first_names(bases, m),
    decreases n,
{
    if n > 0 {
        let names = first_names(bases, (n - 1) as nat);
        lemma_first_names(bases, (n - 1) as nat, (n - 1) as nat);
        if m < n {
            lemma_first_names(bases, (n - 1) as nat, m);
            assert(first_names(bases, n).take(m as int) =~= names.take(m as int));
        } else {
            assert(first_names(bases, n).take(m as int) =~= first_names(bases, n));
        }
    } else {
        assert(first_names(bases, n).take(m as int) =~= first_names(bases, m));
    }
}

/// There are as many table names as base names.
pub proof fn lemma_table_names_len(bases: Seq<Seq<char>>)
    ensures
        table_names(bases).len() == bases.len(),
{
    lemma_first_names(bases, bases.len(), 0);
}

proof fn lemma_table_name(bases: Seq<Seq<char>>, k: int)
    requires
        0 <= k < bases.len(),
    ensures
        table_names(bases).len() == bases.len(),
        table_names(bases).take(k) == first_names(bases, k as nat),
        table_names(bases)[k] == if keeps_name(bases, k) {
            sanitized(bases[k])
        } else {
            fresh_name(sanitized(bases[k]), sanitized_all(bases) + table_names(bases).take(k))
        },
{
    lemma_first_names(bases, bases.len(), k as nat);
    lemma_first_names(bases, bases.len(), (k + 1) as nat);
    lemma_first_names(bases, k as nat, 0);
    assert(table_names(bases)[k] == table_names(bases).take(k + 1)[k]);
}

proof fn lemma_not_taken(name: Seq<char>, a: Seq<Seq<char>>, b: Seq<Seq<char>>)
    requires
        !taken(name, a + b),
    ensures
        !taken(name, a),
        !taken(name, b),
{
    if taken(name, a) {
        let i = choose|i: int| 0 <= i < a.len() && folded(#[trigger] a[i]) == folded(name);
        assert(folded((a + b)[i]) == folded(name));
    }
    if taken(name, b) {
        let i = choose|i: int| 0 <= i < b.len() && folded(#[trigger] b[i]) == folded(name);
        assert(folded((a + b)[a.len() + i]) == folded(name));
    }
}

/// A view whose files do not give it its name has one that no base name sanitizes
/// to, so that it takes the name of no other view.
pub proof fn law_made_up_name_is_nobodys(bases: Seq<Seq<char>>, k: int)
    requires
        0 <= k < bases.len(),
        !keeps_name(bases, k),
    ensures
        !taken(table_names(bases)[k], sanitized_all(bases)),
        !taken(table_names(bases)[k], table_names(bases).take(k)),
{
    let others = sanitized_all(bases) + table_names(bases).take(k);
    lemma_table_name(bases, k);
    lemma_fresh_name(sanitized(bases[k]), others);
    lemma_not_taken(table_names(bases)[k], sanitized_all(bases), table_names(bases).take(k));
}

/// No two views have the same table name, not even if case is ignored, so that
/// no view stands in the way of another.
pub proof fn law_table_names_are_distinct(bases: Seq<Seq<char>>, i: int, j: int)
    requires
        0 <= i < j < bases.len(),
    ensures
        folded(table_names(bases)[i]) != folded(table_names(bases)[j]),
        table_names(bases)[i] != table_names(bases)[j],
{
    let names = table_names(bases);
    lemma_table_name(bases, i);
    lemma_table_name(bases, j);
    assert(sanitized_all(bases)[i] == sanitized(bases[i]));
    assert(sanitized_all(bases)[j] == sanitized(bases[j]));
    if keeps_name(bases, i) && keeps_name(bases, j) {
        if table_key(bases, i) == table_key(bases, j) {
            assert(outranks(bases, i, j));
            assert(outranks(bases, j, i));
        }
    } else if keeps_name(bases, i) {
        law_made_up_name_is_nobodys(bases, j);
        assert(folded(sanitized_all(bases)[i]) != folded(names[j]));
    } else if keeps_name(bases, j) {
        law_made_up_name_is_nobodys(bases, i);
        assert(folded(sanitized_all(bases)[j]) != folded(names[i]));
    } else {
        law_made_up_name_is_nobodys(bases, j);
        assert(names.take(j)[i] == names[i]);
        assert(folded(names.take(j)[i]) != folded(names[j]));
    }
}

/// Every view has a valid table name: it is not empty and holds no double quote.
pub proof fn law_table_names_are_valid(bases: Seq<Seq<char>>, k: int)
    requires
        0 <= k < bases.len(),
    ensures
        table_names(bases)[k].len() > 0,
        !table_names(bases)[k].contains('"'),
{
    lemma_table_name(bases, k);
    law_table_name_is_valid(bases[k]);
    lemma_fresh_name(sanitized(bases[k]), sanitized_all(bases) + table_names(bases).take(k));
}

/// A view has the sanitized base name of its files if no other base name sanitizes
/// to the same, whatever the other names are.
pub proof fn law_name_without_rival_is_kept(bases: Seq<Seq<char>>, k: int)
    requires
        0 <= k < bases.len(),
        forall|i: int| #![trigger bases[i]]
            0 <= i < bases.len() && i != k ==> table_key(bases, i) != table_key(bases, k),
    ensures
        table_names(bases)[k] == sanitized(bases[k]),
{
    lemma_table_name(bases, k);
}

/// A base name that can stand in double quotes as it is gives its view the name
/// unless an earlier such base name sanitizes to the same.
pub proof fn law_first_plain_base_keeps_its_name(bases: Seq<Seq<char>>, k: int)
    requires
        0 <= k < bases.len(),
        is_plain(bases[k]),
        forall|i: int| #![trigger bases[i]]
            0 <= i < k && is_plain(bases[i]) ==> table_key(bases, i) != table_key(bases, k),
    ensures
        table_names(bases)[k] == sanitized(bases[k]),
{
    lemma_table_name(bases, k);
}

proof fn lemma_best_claim(bases: Seq<Seq<char>>, k: int, n: int) -> (o: int)
    requires
        0 <= k < n <= bases.len(),
    ensures
        0 <= o < n,
        table_key(bases, o) == table_key(bases, k),
        o == k || outranks(bases, o, k),
        forall|i: int| #![trigger bases[i]]
            0 <= i < n && i != o && table_key(bases, i) == table_key(bases, k) ==> outranks(
                bases,
                o,
                i,
            ),
    decreases n,
{
    if n == k + 1 && forall|i: int| #![trigger bases[i]]
        0 <= i < k ==> table_key(bases, i) != table_key(bases, k) {
        k
    } else if n == k + 1 {
        let j = choose|j: int| #![trigger bases[j]]
            0 <= j < k && table_key(bases, j) == table_key(bases, k);
        let o = lemma_best_claim(bases, j, k);
        if outranks(bases, k, o) {
            k
        } else {
            o
        }
    } else {
        let o = lemma_best_claim(bases, k, n - 1);
        let last = n - 1;
        if table_key(bases, last) == table_key(bases, k) && outranks(bases, last, o) {
            last
        } else {
            o
        }
    }
}

/// A base name that can stand in double quotes as it is gives its view the name
/// unless the view of an earlier one has it.
pub proof fn law_free_name_is_kept(bases: Seq<Seq<char>>, k: int)
    requires
        0 <= k < bases.len(),
        is_plain(bases[k]),
        !taken(sanitized(bases[k]), table_names(bases).take(k)),
    ensures
        table_names(bases)[k] == sanitized(bases[k]),
{
    lemma_table_name(bases, k);
    let o = lemma_best_claim(bases, k, bases.len() as int);
    if o != k {
        assert(o < k);
        assert(keeps_name(bases, o));
        lemma_table_name(bases, o);
        assert(table_names(bases).take(k)[o] == sanitized(bases[o]));
        assert(folded(table_names(bases).take(k)[o]) == folded(sanitized(bases[k])));
        assert(false);
    }
}

/// Every sanitized base name is, up to case, the table name of a view whose files
/// have it.
pub proof fn law_every_sanitized_name_has_its_view(bases: Seq<Seq<char>>, k: int)
    requires
        0 <= k < bases.len(),
    ensures
        exists|o: int| #![trigger bases[o]]
            0 <= o < bases.len() && table_key(bases, o) == table_key(bases, k) && table_names(
                bases,
            )[o] == sanitized(bases[o]),
{
    let o = lemma_best_claim(bases, k, bases.len() as int);
    assert(keeps_name(bases, o));
    lemma_table_name(bases, o);
}

proof fn lemma_fresh_name_adds_underscores(name: Seq<char>, names: Seq<Seq<char>>)
    ensures
        fresh_name(name, names).len() >= name.len(),
        fresh_name(name, names).take(name.len() as int) == name,
        forall|i: int|
            name.len() <= i < fresh_name(name, names).len() ==> #[trigger] fresh_name(name, names)[i]
                == '_',
        forall|m: int|
            name.len() <= m < fresh_name(name, names).len() ==> taken(
                #[trigger] fresh_name(name, names).take(m),
                names,
            ),
    decreases total_len(names) + 1 - name.len(),
{
    let fresh = fresh_name(name, names);
    if taken(name, names) {
        lemma_taken_is_short(name, names);
        let longer = name.push('_');
        lemma_fresh_name_adds_underscores(longer, names);
        assert(fresh.take(name.len() as int) =~= fresh.take(longer.len() as int).take(
            name.len() as int,
        ));
        assert(longer.take(name.len() as int) =~= name);
        assert forall|i: int| name.len() <= i < fresh.len() implies #[trigger] fresh[i] == '_' by {
            if i == name.len() {
                assert(fresh[i] == fresh.take(longer.len() as int)[i]);
            }
        }
        assert forall|m: int| name.len() <= m < fresh.len() implies taken(
            #[trigger] fresh.take(m),
            names,
        ) by {
            if m == name.len() {
                assert(fresh.take(m) == name);
            }
        }
    } else {
        assert(fresh.take(name.len() as int) =~= name);
    }
}

/// A table name is the sanitized base name, with as many underscores behind it as it
/// takes to tell it from all sanitized base names and from the table names in front of
/// it, and none if the base name has the best claim.
pub proof fn law_made_up_name_adds_underscores(bases: Seq<Seq<char>>, k: int, m: int)
    requires
        0 <= k < bases.len(),
    ensures
        table_names(bases)[k].len() >= sanitized(bases[k]).len(),
        table_names(bases)[k].take(sanitized(bases[k]).len() as int) == sanitized(bases[k]),
        sanitized(bases[k]).len() <= m < table_names(bases)[k].len() ==> table_names(bases)[k][m]
            == '_' && taken(
            table_names(bases)[k].take(m),
            sanitized_all(bases) + table_names(bases).take(k),
        ),
        keeps_name(bases, k) <==> table_names(bases)[k] == sanitized(bases[k]),
{
    let clean = sanitized(bases[k]);
    let others = sanitized_all(bases) + table_names(bases).take(k);
    lemma_table_name(bases, k);
    if keeps_name(bases, k) {
        assert(clean.take(clean.len() as int) =~= clean);
    } else {
        lemma_fresh_name_adds_underscores(clean, others);
        law_made_up_name_is_nobodys(bases, k);
        assert(folded(sanitized_all(bases)[k]) == folded(clean));
    }
}

}
