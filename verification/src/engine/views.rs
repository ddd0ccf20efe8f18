//! The database views that stand for the Parquet files of a directory.
//!
//! Files whose names differ only behind `_chunk` hold parts of one table and
//! share a view. Each view has a table name of its own, so that the files of
//! every view can be queried.
use crate::engine::naming::{
    law_table_names_are_distinct, lemma_table_names_len, name_tables, table_names,
};
use crate::text::{chars_of, join, joined, text_of, texts};
use vstd::hash_map::StringHashMap;
use vstd::prelude::*;

verus! {

/// An entry of a directory: its name, and its path as text.
#[derive(Debug, PartialEq)]
pub struct DirEntry {
    pub file_name: String,
    pub path: String,
}

/// The files that one view is made of.
#[derive(Debug, PartialEq)]
pub struct FileGroup {
    pub base: String,
    pub files: Vec<String>,
}

/// A view to create.
#[derive(Debug, PartialEq)]
pub struct ViewStatement {
    pub table_name: String,
    pub sql: String,
}

/// Whether a file name has the extension `parquet`.
pub open spec fn is_parquet(name: Seq<char>) -> bool {
    &&& name.len() > ".parquet"@.len()
    &&& name.skip(name.len() - ".parquet"@.len()) == ".parquet"@
}

/// A Parquet file name without its extension.
pub open spec fn parquet_stem(name: Seq<char>) -> Seq<char> {
    name.take(name.len() - ".parquet"@.len())
}

/// Whether a pattern stands at position `i` of a text.
pub open spec fn occurs_at(s: Seq<char>, pattern: Seq<char>, i: int) -> bool {
    0 <= i && i + pattern.len() <= s.len() && s.subrange(i, i + pattern.len()) == pattern
}

/// The last position, at `from` or before it, where a pattern stands; -1 if there is none.
pub open spec fn last_occurrence(s: Seq<char>, pattern: Seq<char>, from: int) -> int
    decreases from + 1,
{
    if from < 0 {
        -1
    } else if occurs_at(s, pattern, from) {
        from
    } else {
        last_occurrence(s, pattern, from - 1)
    }
}

/// The part of a file stem in front of its last `_chunk`, or all of it.
pub open spec fn chunk_base(stem: Seq<char>) -> Seq<char> {
    let i = last_occurrence(stem, "_chunk"@, stem.len() as int);
    if i < 0 {
        stem
    } else {
        stem.take(i)
    }
}

/// The name that the files of one view have in common.
pub open spec fn base_of(entry: DirEntry) -> Seq<char> {
    chunk_base(parquet_stem(entry.file_name@))
}

/// The paths of the Parquet files with that base name, in the order of the listing.
pub open spec fn files_of(entries: Seq<DirEntry>, base: Seq<char>) -> Seq<Seq<char>>
    decreases entries.len(),
{
    if entries.len() == 0 {
        Seq::empty()
    } else {
        let files = files_of(entries.drop_last(), base);
        if is_parquet(entries.last().file_name@) && base_of(entries.last()) == base {
            files.push(entries.last().path@)
        } else {
            files
        }
    }
}

/// The base names of the Parquet files, each once, in the order of their first file.
pub open spec fn bases_of(entries: Seq<DirEntry>) -> Seq<Seq<char>>
    decreases entries.len(),
{
    if entries.len() == 0 {
        Seq::empty()
    } else {
        let bases = bases_of(entries.drop_last());
        if is_parquet(entries.last().file_name@) && !bases.contains(base_of(entries.last())) {
            bases.push(base_of(entries.last()))
        } else {
            bases
        }
    }
}

/// The number of Parquet files in a listing.
pub open spec fn parquet_count(names: Seq<Seq<char>>) -> nat
    decreases names.len(),
{
    if names.len() == 0 {
        0
    } else {
        parquet_count(names.drop_last()) + if is_parquet(names.last()) {
            1nat
        } else {
            0nat
        }
    }
}

/// A text with each single quote doubled.
pub open spec fn doubled_quotes(s: Seq<char>) -> Seq<char>
    decreases s.len(),
{
    if s.len() == 0 {
        Seq::empty()
    } else {
        doubled_quotes(s.drop_last()) + if s.last() == '\'' {
            seq!['\'', '\'']
        } else {
            seq![s.last()]
        }
    }
}

/// A text as a string of SQL: in single quotes, with those inside it doubled.
pub open spec fn quoted(s: Seq<char>) -> Seq<char> {
    "'"@ + doubled_quotes(s) + "'"@
}

/// The statement that creates a view over files: one file is named, several are listed.
pub open spec fn view_sql(table_name: Seq<char>, files: Seq<Seq<char>>) -> Seq<char> {
    "CREATE VIEW \""@ + table_name + "\" AS SELECT * FROM read_parquet("@ + if files.len() == 1 {
        quoted(files[0])
    } else {
        "["@ + joined(files.map_values(|f: Seq<char>| quoted(f)), ","@) + "]"@
    } + ")"@
}

/// Whether the groups are those of the listing.
pub open spec fn groups_listing(groups: Seq<FileGroup>, entries: Seq<DirEntry>) -> bool {
    &&& groups.len() == bases_of(entries).len()
    &&& forall|k: int| #![trigger groups[k]]
        0 <= k < groups.len() ==> {
            &&& groups[k].base@ == bases_of(entries)[k]
            &&& texts(groups[k].files@) == files_of(entries, bases_of(entries)[k])
        }
}

/// Whether a statement creates view `k` of the listing.
pub open spec fn creates_view(statement: ViewStatement, entries: Seq<DirEntry>, k: int) -> bool {
    let bases = bases_of(entries);
    &&& statement.table_name@ == table_names(bases)[k]
    &&& statement.sql@ == view_sql(table_names(bases)[k], files_of(entries, bases[k]))
}

/// Whether the statements create one view for each base name of the listing,
/// each under a table name of its own.
pub open spec fn creates_views(statements: Seq<ViewStatement>, entries: Seq<DirEntry>) -> bool {
    &&& statements.len() == bases_of(entries).len()
    &&& forall|k: int| #![trigger statements[k]]
        0 <= k < statements.len() ==> creates_view(statements[k], entries, k)
    &&& forall|i: int, j: int| #![trigger statements[i], statements[j]]
        0 <= i < j < statements.len() ==> statements[i].table_name@ != statements[j].table_name@
}

fn stands_at(s: &Vec<char>, pattern: &Vec<char>, i: usize) -> (yes: bool)
    requires
        i <= s.len(),
    ensures
        yes == occurs_at(s@, pattern@, i as int),
{
    if pattern.len() > s.len() - i {
        return false;
    }
    let mut j: usize = 0;
    while j < pattern.len()
        invariant
            j <= pattern.len(),
            i + pattern.len() <= s.len(),
            forall|k: int| 0 <= k < j ==> s@[i + k] == pattern@[k],
        decreases pattern.len() - j,
    {
        if s[i + j] != pattern[j] {
            assert(s@.subrange(i as int, i + pattern@.len())[j as int] != pattern@[j as int]);
            return false;
        }
        j = j + 1;
    }
    assert(s@.subrange(i as int, i + pattern@.len()) =~= pattern@);
    true
}

/// Whether a file name has the extension `parquet`.
pub fn is_parquet_name(name: &str) -> (yes: bool)
    ensures
        yes == is_parquet(name@),
{
    let chars = chars_of(name);
    let extension = chars_of(".parquet");
    if chars.len() <= extension.len() {
        return false;
    }
    let ghost at = chars@.len() - extension@.len();
    assert(chars@.subrange(at, at + extension@.len()) =~= chars@.skip(at));
    stands_at(&chars, &extension, chars.len() - extension.len())
}

/// The name that a Parquet file shares with the other files of its view.
pub fn base_name(file_name: &str) -> (base: String)
    requires
        is_parquet(file_name@),
    ensures
        base@ == chunk_base(parquet_stem(file_name@)),
{
    let chars = chars_of(file_name);
    let extension = chars_of(".parquet");
    let stem = chars_of(text_of(&chars, 0, chars.len() - extension.len()).as_str());
    assert(stem@ =~= parquet_stem(file_name@));
    let marker = chars_of("_chunk");
    let mut i: usize = stem.len();
    loop
        invariant
            i <= stem.len(),
            marker@ == "_chunk"@,
            stem@ == parquet_stem(file_name@),
            last_occurrence(stem@, marker@, stem@.len() as int) == last_occurrence(
                stem@,
                marker@,
                i as int,
            ),
        decreases i,
    {
        if stands_at(&stem, &marker, i) {
            assert(stem@.subrange(0, i as int) =~= stem@.take(i as int));
            return text_of(&stem, 0, i);
        }
        if i == 0 {
            assert(last_occurrence(stem@, marker@, -1) == -1);
            assert(stem@.subrange(0, stem@.len() as int) =~= stem@);
            return text_of(&stem, 0, stem.len());
        }
        i = i - 1;
    }
}

/// The number of Parquet files in a directory; none if it cannot be listed.
pub fn count_parquet_files(listing: Option<&Vec<String>>) -> (count: usize)
    ensures
        count == match listing {
            Some(names) => parquet_count(texts(names@)),
            None => 0,
        },
{
    match listing {
        None => 0,
        Some(names) => {
            let mut count: usize = 0;
            let mut i: usize = 0;
            while i < names.len()
                invariant
                    i <= names.len(),
                    count <= i,
                    count == parquet_count(texts(names@).take(i as int)),
                decreases names.len() - i,
            {
                let ghost after = texts(names@).take(i + 1);
                assert(after.drop_last() =~= texts(names@).take(i as int));
                if is_parquet_name(names[i].as_str()) {
                    count = count + 1;
                }
                i = i + 1;
            }
            assert(texts(names@).take(i as int) =~= texts(names@));
            count
        },
    }
}

fn quote(text: &str) -> (out: String)
    ensures
        out@ == quoted(text@),
{
    let chars = chars_of(text);
    let mut out = "'".to_string();
    let mut i: usize = 0;
    while i < chars.len()
        invariant
            i <= chars.len(),
            out@ == "'"@ + doubled_quotes(chars@.take(i as int)),
        decreases chars.len() - i,
    {
        let ghost before = doubled_quotes(chars@.take(i as int));
        let c = chars[i];
        assert(chars@.take(i + 1).drop_last() =~= chars@.take(i as int));
        if c == '\'' {
            out.push('\'');
            out.push('\'');
            assert(out@ =~= "'"@ + (before + seq!['\'', '\'']));
        } else {
            out.push(c);
            assert(out@ =~= "'"@ + (before + seq![c]));
        }
        i = i + 1;
    }
    assert(chars@.take(i as int) =~= chars@);
    out.append("'");
    out
}

proof fn lemma_bases_distinct(entries: Seq<DirEntry>)
    ensures
        bases_of(entries).no_duplicates(),
    decreases entries.len(),
{
    if entries.len() > 0 {
        lemma_bases_distinct(entries.drop_last());
    }
}

proof fn lemma_no_files_without_base(entries: Seq<DirEntry>, base: Seq<char>)
    requires
        !bases_of(entries).contains(base),
    ensures
        files_of(entries, base).len() == 0,
    decreases entries.len(),
{
    if entries.len() > 0 {
        let bases = bases_of(entries.drop_last());
        let last = base_of(entries.last());
        if bases.contains(base) {
            let k = choose|k: int| 0 <= k < bases.len() && bases[k] == base;
            assert(bases_of(entries)[k] == base);
        }
        if is_parquet(entries.last().file_name@) && !bases.contains(last) {
            assert(bases.push(last)[bases.len() as int] == last);
        }
        lemma_no_files_without_base(entries.drop_last(), base);
    }
}

/// Whether a map gives the position of each base name.
spec fn indexes(index: Map<Seq<char>, usize>, bases: Seq<Seq<char>>) -> bool {
    &&& forall|base: Seq<char>| #[trigger] index.contains_key(base) ==> index[base] < bases.len()
        && bases[index[base] as int] == base
    &&& forall|k: int| 0 <= k < bases.len() ==> index.contains_key(#[trigger] bases[k])
}

/// Groups the Parquet files of a listing by their base names.
pub fn group_files(entries: &Vec<DirEntry>) -> (groups: Vec<FileGroup>)
    ensures
        groups_listing(groups@, entries@),
{
    let mut groups: Vec<FileGroup> = Vec::new();
    let mut index: StringHashMap<usize> = StringHashMap::new();
    let mut i: usize = 0;
    while i < entries.len()
        invariant
            i <= entries.len(),
            groups_listing(groups@, entries@.take(i as int)),
            indexes(index@, bases_of(entries@.take(i as int))),
        decreases entries.len() - i,
    {
        let ghost before = entries@.take(i as int);
        let ghost after = entries@.take(i + 1);
        let ghost old_groups = groups@;
        assert(after.drop_last() =~= before);
        if is_parquet_name(entries[i].file_name.as_str()) {
            let base = base_name(entries[i].file_name.as_str());
            let found = match index.get(base.as_str()) {
                Some(k) => Some(*k),
                None => None,
            };
            proof {
                lemma_bases_distinct(before);
            }
            match found {
                Some(k) => {
                    assert(bases_of(before)[k as int] == base@);
                    assert(bases_of(after) == bases_of(before));
                    assert(old_groups[k as int].base@ == bases_of(before)[k as int]);
                    groups[k].files.push(entries[i].path.clone());
                    assert(texts(groups@[k as int].files@) =~= texts(
                        old_groups[k as int].files@,
                    ).push(entries@[i as int].path@));
                    assert forall|j: int| #![trigger groups@[j]] 0 <= j < groups@.len() implies {
                        &&& groups@[j].base@ == bases_of(after)[j]
                        &&& texts(groups@[j].files@) == files_of(after, bases_of(after)[j])
                    } by {
                        assert(old_groups[j].base@ == bases_of(before)[j]);
                        if j != k {
                            assert(groups@[j] == old_groups[j]);
                            assert(bases_of(before)[j] != bases_of(before)[k as int]);
                        }
                    }
                },
                None => {
                    proof {
                        assert(!bases_of(before).contains(base@));
                        lemma_no_files_without_base(before, base@);
                    }
                    index.insert(base.clone(), groups.len());
                    let mut files: Vec<String> = Vec::new();
                    files.push(entries[i].path.clone());
                    assert(texts(files@) =~= files_of(after, base@));
                    groups.push(FileGroup { base, files });
                    assert forall|j: int| #![trigger groups@[j]] 0 <= j < groups@.len() implies {
                        &&& groups@[j].base@ == bases_of(after)[j]
                        &&& texts(groups@[j].files@) == files_of(after, bases_of(after)[j])
                    } by {
                        if j < old_groups.len() {
                            assert(groups@[j] == old_groups[j]);
                            assert(bases_of(before).contains(bases_of(before)[j]));
                        }
                    }
                    assert forall|k: int| 0 <= k < bases_of(after).len() implies
                        index@.contains_key(#[trigger] bases_of(after)[k]) by {
                        if k < bases_of(before).len() {
                            assert(index@.contains_key(bases_of(before)[k]));
                        }
                    }
                },
            }
        } else {
            assert forall|j: int| #![trigger groups@[j]] 0 <= j < groups@.len() implies {
                &&& groups@[j].base@ == bases_of(after)[j]
                &&& texts(groups@[j].files@) == files_of(after, bases_of(after)[j])
            } by {
                assert(groups@[j].base@ == bases_of(before)[j]);
            }
        }
        i = i + 1;
    }
    assert(entries@.take(i as int) =~= entries@);
    groups
}

/// The statement that creates the view of some files.
pub fn create_view_sql(table_name: &str, files: &Vec<String>) -> (sql: String)
    ensures
        sql@ == view_sql(table_name@, texts(files@)),
{
    let mut sql = "CREATE VIEW \"".to_string();
    sql.append(table_name);
    sql.append("\" AS SELECT * FROM read_parquet(");
    if files.len() == 1 {
        sql.append(quote(files[0].as_str()).as_str());
        sql.append(")");
        assert(sql@ =~= view_sql(table_name@, texts(files@)));
    } else {
        let mut list: Vec<String> = Vec::new();
        let mut i: usize = 0;
        while i < files.len()
            invariant
                i <= files.len(),
                list.len() == i,
                forall|k: int| 0 <= k < i ==> (#[trigger] list@[k])@ == quoted(files@[k]@),
            decreases files.len() - i,
        {
            list.push(quote(files[i].as_str()));
            i = i + 1;
        }
        assert(texts(list@) =~= texts(files@).map_values(|f: Seq<char>| quoted(f)));
        sql.append("[");
        sql.append(join(&list, ",").as_str());
        sql.append("]");
        sql.append(")");
        assert(sql@ =~= view_sql(table_name@, texts(files@)));
    }
    sql
}

/// The views of a directory listing, one for each base name.
pub fn plan_views(entries: &Vec<DirEntry>) -> (statements: Vec<ViewStatement>)
    ensures
        creates_views(statements@, entries@),
{
    let groups = group_files(entries);
    let ghost bases = bases_of(entries@);
    let mut group_bases: Vec<String> = Vec::new();
    let mut i: usize = 0;
    while i < groups.len()
        invariant
            i <= groups.len(),
            bases == bases_of(entries@),
            groups_listing(groups@, entries@),
            texts(group_bases@) =~= bases.take(i as int),
        decreases groups.len() - i,
    {
        let ghost before = group_bases@;
        assert(groups@[i as int].base@ == bases[i as int]);
        group_bases.push(groups[i].base.clone());
        assert(texts(group_bases@) =~= texts(before).push(bases[i as int]));
        i = i + 1;
    }
    assert(bases.take(i as int) =~= bases);
    let names = name_tables(&group_bases);
    let ghost named = texts(names@);
    proof {
        lemma_table_names_len(bases);
    }
    assert(named.len() == names@.len());
    let mut statements: Vec<ViewStatement> = Vec::new();
    let mut i: usize = 0;
    for table_name in iter: names
        invariant
            iter.seq() == names@,
            i == iter.index(),
            statements.len() == i,
            names@.len() == groups.len(),
            bases == bases_of(entries@),
            named == texts(names@),
            named == table_names(bases),
            groups_listing(groups@, entries@),
            forall|k: int| #![trigger statements@[k]]
                0 <= k < i ==> creates_view(statements@[k], entries@, k),
    {
        assert(groups@[i as int].base@ == bases[i as int]);
        assert(table_name@ == named[i as int]);
        let sql = create_view_sql(table_name.as_str(), &groups[i].files);
        statements.push(ViewStatement { table_name, sql });
        i = i + 1;
    }
    proof {
        assert forall|a: int, b: int| #![trigger statements@[a], statements@[b]]
            0 <= a < b < statements@.len() implies statements@[a].table_name@
            != statements@[b].table_name@ by {
            law_table_names_are_distinct(bases, a, b);
            assert(creates_view(statements@[a], entries@, a));
            assert(creates_view(statements@[b], entries@, b));
        }
    }
    statements
}

/// The number of attempts that succeeded.
pub open spec fn successes(outcomes: Seq<bool>) -> nat
    decreases outcomes.len(),
{
    if outcomes.len() == 0 {
        0
    } else {
        successes(outcomes.drop_last()) + if outcomes.last() {
            1nat
        } else {
            0nat
        }
    }
}

/// The creation of views, one after another.
#[derive(Debug, PartialEq)]
pub struct ViewRegistration {
    statements: Vec<ViewStatement>,
    outcomes: Vec<bool>,
}

/// What the outcome of a statement makes of a registration, and the warning that it
/// gives.
pub open spec fn records(
    before: ViewRegistration,
    outcome: Result<(), String>,
    after: ViewRegistration,
    warning: Option<String>,
) -> bool {
    &&& after.statements() == before.statements()
    &&& after.outcomes() == before.outcomes().push(outcome is Ok)
    &&& match outcome {
        Ok(_) => warning is None,
        Err(e) => warning matches Some(text) && text@ == "Warning: failed to register "@
            + before.statements()[before.outcomes().len() as int].table_name@ + ": "@ + e@,
    }
}

impl ViewRegistration {
    /// The views to create.
    pub closed spec fn statements(&self) -> Seq<ViewStatement> {
        self.statements@
    }

    /// Of each view tried so far, whether it was created.
    pub closed spec fn outcomes(&self) -> Seq<bool> {
        self.outcomes@
    }

    /// Whether views are left to try.
    pub open spec fn pending(&self) -> bool {
        self.outcomes().len() < self.statements().len()
    }

    /// The statement to execute next, or none when every view was tried.
    pub fn next_statement(&self) -> (sql: Option<&str>)
        ensures
            match sql {
                Some(text) => self.pending() && text@
                    == self.statements()[self.outcomes().len() as int].sql@,
                None => !self.pending(),
            },
    {
        if self.outcomes.len() < self.statements.len() {
            Some(self.statements[self.outcomes.len()].sql.as_str())
        } else {
            None
        }
    }

    /// Takes the outcome of the statement that was next. A failure is not
    /// counted and gives a warning; the registration goes on.
    pub fn record(&mut self, outcome: Result<(), String>) -> (warning: Option<String>)
        requires
            old(self).pending(),
        ensures
            records(*old(self), outcome, *final(self), warning),
    {
        let i: usize = self.outcomes.len();
        match outcome {
            Ok(_) => {
                self.outcomes.push(true);
                None
            },
            Err(e) => {
                let mut text = "Warning: failed to register ".to_string();
                text.append(self.statements[i].table_name.as_str());
                text.append(": ");
                text.append(e.as_str());
                self.outcomes.push(false);
                Some(text)
            },
        }
    }

    /// The number of views that were created.
    pub fn table_count(&self) -> (count: usize)
        ensures
            count == successes(self.outcomes()),
            count <= self.outcomes().len(),
    {
        let mut count: usize = 0;
        let mut i: usize = 0;
        while i < self.outcomes.len()
            invariant
                i <= self.outcomes.len(),
                count <= i,
                count == successes(self.outcomes@.take(i as int)),
            decreases self.outcomes.len() - i,
        {
            assert(self.outcomes@.take(i + 1).drop_last() =~= self.outcomes@.take(i as int));
            if self.outcomes[i] {
                count = count + 1;
            }
            i = i + 1;
        }
        assert(self.outcomes@.take(i as int) =~= self.outcomes@);
        count
    }
}

/// Starts the registration of the Parquet files of a directory listing.
pub fn register_parquet_views(entries: &Vec<DirEntry>) -> (registration: ViewRegistration)
    ensures
        creates_views(registration.statements(), entries@),
        registration.outcomes().len() == 0,
{
    ViewRegistration { statements: plan_views(entries), outcomes: Vec::new() }
}

/// Of a registration that was carried through, no more tables are counted than
/// there are views, and as many exactly if none failed.
pub proof fn law_failed_views_are_not_counted(outcomes: Seq<bool>)
    ensures
        successes(outcomes) <= outcomes.len(),
        successes(outcomes) == outcomes.len() <==> !outcomes.contains(false),
    decreases outcomes.len(),
{
    if outcomes.len() > 0 {
        let front = outcomes.drop_last();
        law_failed_views_are_not_counted(front);
        if front.contains(false) {
            let i = choose|i: int| 0 <= i < front.len() && front[i] == false;
            assert(outcomes[i] == false);
        }
        if outcomes.contains(false) {
            let i = choose|i: int| 0 <= i < outcomes.len() && outcomes[i] == false;
            if i < front.len() {
                assert(front[i] == false);
            }
        }
        if !outcomes.last() {
            assert(outcomes[outcomes.len() - 1] == false);
        }
    }
}

/// Quotes are doubled piece by piece, and a text without any stays as it is.
pub proof fn law_quotes_are_doubled(s: Seq<char>, t: Seq<char>)
    ensures
        doubled_quotes(s + t) == doubled_quotes(s) + doubled_quotes(t),
        !s.contains('\'') ==> doubled_quotes(s) == s,
    decreases s.len() + t.len(),
{
    if t.len() > 0 {
        law_quotes_are_doubled(s, t.drop_last());
        assert((s + t).drop_last() =~= s + t.drop_last());
        assert((s + t).last() == t.last());
        assert(doubled_quotes(s + t) =~= doubled_quotes(s) + doubled_quotes(t));
    } else {
        assert(s + t =~= s);
        assert(doubled_quotes(s) + doubled_quotes(t) =~= doubled_quotes(s));
        if s.len() > 0 && !s.contains('\'') {
            assert(s[s.len() - 1] == s.last());
            assert forall|c: char| s.drop_last().contains(c) implies s.contains(c) by {
                let i = choose|i: int| 0 <= i < s.drop_last().len() && s.drop_last()[i] == c;
                assert(s[i] == c);
            }
            law_quotes_are_doubled(s.drop_last(), t);
            assert(s.drop_last() + seq![s.last()] =~= s);
        }
    }
}

/// A file `<class>_chunk<part>.parquet` belongs to `<class>`, as long as the
/// part holds no underscore.
pub proof fn law_chunks_belong_to_their_class(class: Seq<char>, part: Seq<char>)
    requires
        !part.contains('_'),
    ensures
        chunk_base(class + "_chunk"@ + part) == class,
{
    reveal_strlit("_chunk");
    let stem = class + "_chunk"@ + part;
    assert(stem.subrange(class.len() as int, class.len() as int + 6) =~= "_chunk"@);
    lemma_last_occurrence(stem, class.len() as int, stem.len() as int);
    assert(stem.take(class.len() as int) =~= class);
}

proof fn lemma_last_occurrence(stem: Seq<char>, at: int, from: int)
    requires
        at <= from <= stem.len(),
        occurs_at(stem, "_chunk"@, at),
        !stem.skip(at + 6).contains('_'),
    ensures
        last_occurrence(stem, "_chunk"@, from) == at,
    decreases from - at,
{
    reveal_strlit("_chunk");
    if from > at {
        if occurs_at(stem, "_chunk"@, from) {
            assert(stem.subrange(from, from + 6)[0] == '_');
            if from < at + 6 {
                assert(stem.subrange(at, at + 6)[from - at] == "_chunk"@[from - at]);
            } else {
                assert(stem.skip(at + 6)[from - at - 6] == '_');
            }
        }
        lemma_last_occurrence(stem, at, from - 1);
    }
}

/// A file stem without `_chunk` is its own base name.
pub proof fn law_whole_files_keep_their_name(stem: Seq<char>)
    requires
        forall|i: int| !occurs_at(stem, "_chunk"@, i),
    ensures
        chunk_base(stem) == stem,
{
    lemma_no_occurrence(stem, stem.len() as int);
}

proof fn lemma_no_occurrence(stem: Seq<char>, from: int)
    requires
        forall|i: int| !occurs_at(stem, "_chunk"@, i),
    ensures
        last_occurrence(stem, "_chunk"@, from) < 0,
    decreases from + 1,
{
    if from >= 0 {
        lemma_no_occurrence(stem, from - 1);
    }
}

/// No two views share a base name or a table name.
pub proof fn law_views_are_distinct(entries: Seq<DirEntry>)
    ensures
        bases_of(entries).no_duplicates(),
        table_names(bases_of(entries)).no_duplicates(),
{
    let bases = bases_of(entries);
    lemma_bases_distinct(entries);
    lemma_table_names_len(bases);
    assert forall|i: int, j: int| 0 <= i < bases.len() && 0 <= j < bases.len() && i != j implies
        table_names(bases)[i] != table_names(bases)[j] by {
        if i < j {
            law_table_names_are_distinct(bases, i, j);
        } else {
            law_table_names_are_distinct(bases, j, i);
        }
    }
}

/// Every Parquet file of the listing is among the files of the view of its base name.
pub proof fn law_every_parquet_file_has_a_view(entries: Seq<DirEntry>, i: int)
    requires
        0 <= i < entries.len(),
        is_parquet(entries[i].file_name@),
    ensures
        bases_of(entries).contains(base_of(entries[i])),
        files_of(entries, base_of(entries[i])).contains(entries[i].path@),
    decreases entries.len(),
{
    let front = entries.drop_last();
    let base = base_of(entries[i]);
    let bases = bases_of(front);
    let files = files_of(front, base);
    if i < front.len() {
        law_every_parquet_file_has_a_view(front, i);
        let b = choose|b: int| 0 <= b < bases.len() && bases[b] == base;
        assert(bases_of(entries)[b] == base);
        let f = choose|f: int| 0 <= f < files.len() && files[f] == entries[i].path@;
        assert(files_of(entries, base)[f] == entries[i].path@);
    } else {
        assert(bases.push(base)[bases.len() as int] == base);
        assert(files.push(entries[i].path@)[files.len() as int] == entries[i].path@);
    }
}

/// The files of a view are Parquet files of the listing with its base name.
pub proof fn law_views_hold_listed_files(entries: Seq<DirEntry>, base: Seq<char>, k: int)
    requires
        0 <= k < files_of(entries, base).len(),
    ensures
        exists|i: int| #![trigger entries[i]]
            0 <= i < entries.len() && is_parquet(entries[i].file_name@) && base_of(entries[i])
                == base && entries[i].path@ == files_of(entries, base)[k],
    decreases entries.len(),
{
    let front = entries.drop_last();
    if k < files_of(front, base).len() {
        law_views_hold_listed_files(front, base, k);
        let i = choose|i: int| #![trigger front[i]]
            0 <= i < front.len() && is_parquet(front[i].file_name@) && base_of(front[i]) == base
                && front[i].path@ == files_of(front, base)[k];
        assert(entries[i] == front[i]);
    } else {
        assert(entries[entries.len() - 1] == entries.last());
    }
}

/// Every view has at least one file.
pub proof fn law_no_view_is_empty(entries: Seq<DirEntry>, base: Seq<char>)
    requires
        bases_of(entries).contains(base),
    ensures
        files_of(entries, base).len() > 0,
    decreases entries.len(),
{
    if entries.len() > 0 {
        let front = entries.drop_last();
        if bases_of(front).contains(base) {
            law_no_view_is_empty(front, base);
        } else {
            let b = choose|b: int| 0 <= b < bases_of(entries).len() && bases_of(entries)[b] == base;
            if b < bases_of(front).len() {
                assert(bases_of(front)[b] == base);
            }
        }
    }
}

/// The number of files that the views of some base names hold together.
pub open spec fn file_total(entries: Seq<DirEntry>, bases: Seq<Seq<char>>) -> nat
    decreases bases.len(),
{
    if bases.len() == 0 {
        0
    } else {
        file_total(entries, bases.drop_last()) + files_of(entries, bases.last()).len()
    }
}

/// The names of directory entries.
pub open spec fn names_of(entries: Seq<DirEntry>) -> Seq<Seq<char>> {
    Seq::new(entries.len(), |i: int| entries[i].file_name@)
}

proof fn lemma_file_total_step(entries: Seq<DirEntry>, bases: Seq<Seq<char>>)
    requires
        entries.len() > 0,
        bases.no_duplicates(),
    ensures
        file_total(entries, bases) == file_total(entries.drop_last(), bases) + if is_parquet(
            entries.last().file_name@,
        ) && bases.contains(base_of(entries.last())) {
            1nat
        } else {
            0nat
        },
    decreases bases.len(),
{
    let base = base_of(entries.last());
    if bases.len() > 0 {
        let front = bases.drop_last();
        lemma_file_total_step(entries, front);
        if front.contains(base) {
            let k = choose|k: int| 0 <= k < front.len() && front[k] == base;
            assert(bases[k] == base);
        } else if bases.contains(base) {
            let k = choose|k: int| 0 <= k < bases.len() && bases[k] == base;
            if k < front.len() {
                assert(front[k] == base);
            }
        }
        if bases.last() == base {
            assert(bases[bases.len() - 1] == base);
        }
    }
}

/// The views of a listing hold as many files as it has Parquet files: with
/// every Parquet file in the view of its base name, each stands in exactly one.
pub proof fn law_each_parquet_file_is_registered_once(entries: Seq<DirEntry>)
    ensures
        file_total(entries, bases_of(entries)) == parquet_count(names_of(entries)),
    decreases entries.len(),
{
    if entries.len() > 0 {
        let front = entries.drop_last();
        let base = base_of(entries.last());
        let bases = bases_of(front);
        law_each_parquet_file_is_registered_once(front);
        lemma_bases_distinct(front);
        lemma_file_total_step(entries, bases);
        assert(names_of(entries).drop_last() =~= names_of(front));
        if is_parquet(entries.last().file_name@) && !bases.contains(base) {
            lemma_no_files_without_base(front, base);
            assert(bases.push(base).drop_last() =~= bases);
        }
    }
}

}
