//! Laws of the views over the files of a directory.
use crate::engine::naming::{
    folded, is_plain, keeps_name, law_made_up_name_adds_underscores, law_name_without_rival_is_kept,
    law_table_names_are_distinct, law_table_names_are_valid, lemma_table_names_len, name_tables,
    outranks, sanitize_table_name, sanitized, sanitized_char, sanitized_chars, table_key,
};
use crate::engine::views::{
    base_name, base_of, bases_of, chunk_base, count_parquet_files, create_view_sql, creates_view,
    creates_views, doubled_quotes, files_of, group_files, is_parquet, is_parquet_name,
    law_every_parquet_file_has_a_view, law_no_view_is_empty, law_quotes_are_doubled,
    law_views_are_distinct, law_views_hold_listed_files, last_occurrence, occurs_at, parquet_count,
    parquet_stem, plan_views, quoted, records, register_parquet_views, successes, view_sql, DirEntry,
    FileGroup, ViewRegistration, ViewStatement,
};
use crate::text::{joined, texts};
use vstd::prelude::*;

verus! {

/// A piece of an SQL statement: a character, or a string with what it holds.
pub enum Token {
    Char(char),
    Text(Seq<char>),
}

/// How many characters belong to a quoted name, behind its first quote.
pub open spec fn name_len(text: Seq<char>) -> nat
    decreases text.len(),
{
    if text.len() == 0 {
        0
    } else if text[0] == '"' {
        1
    } else {
        1 + name_len(text.skip(1))
    }
}

/// How many characters belong to a string, behind its first quote. Two quotes in a
/// row do not end it.
pub open spec fn string_len(text: Seq<char>) -> nat
    decreases text.len(),
{
    if text.len() == 0 {
        0
    } else if text[0] != '\'' {
        1 + string_len(text.skip(1))
    } else if text.len() > 1 && text[1] == '\'' {
        2 + string_len(text.skip(2))
    } else {
        1
    }
}

/// What a string holds, behind its first quote: two quotes in a row stand for one.
pub open spec fn string_content(text: Seq<char>) -> Seq<char>
    decreases text.len(),
{
    if text.len() == 0 {
        Seq::empty()
    } else if text[0] != '\'' {
        seq![text[0]] + string_content(text.skip(1))
    } else if text.len() > 1 && text[1] == '\'' {
        seq!['\''] + string_content(text.skip(2))
    } else {
        Seq::empty()
    }
}

/// A character of a text.
pub open spec fn char_token(text: Seq<char>, i: int) -> Token {
    Token::Char(text[i])
}

/// The characters of a text.
pub open spec fn plain(text: Seq<char>) -> Seq<Token> {
    Seq::new(text.len(), |i: int| char_token(text, i))
}

/// How the database reads a statement: names in double quotes as they stand, strings
/// in single quotes by what they hold, and the rest character by character.
pub open spec fn tokens(text: Seq<char>) -> Seq<Token>
    decreases text.len(),
{
    if text.len() == 0 {
        Seq::empty()
    } else if text[0] == '"' {
        let n = 1 + name_len(text.skip(1)) as int;
        plain(text.take(n)) + tokens(text.skip(if n <= text.len() {
            n
        } else {
            text.len() as int
        }))
    } else if text[0] == '\'' {
        let n = 1 + string_len(text.skip(1)) as int;
        seq![Token::Text(string_content(text.skip(1)))] + tokens(text.skip(if n <= text.len() {
            n
        } else {
            text.len() as int
        }))
    } else {
        seq![Token::Char(text[0])] + tokens(text.skip(1))
    }
}

proof fn lemma_plain_text(text: Seq<char>, rest: Seq<char>)
    requires
        !text.contains('"'),
        !text.contains('\''),
    ensures
        tokens(text + rest) == plain(text) + tokens(rest),
    decreases text.len(),
{
    if text.len() == 0 {
        assert(text + rest =~= rest);
        assert(plain(text) + tokens(rest) =~= tokens(rest));
    } else {
        let tail = text.skip(1);
        assert(text.contains(text[0]));
        assert forall|c: char| tail.contains(c) implies text.contains(c) by {
            let i = choose|i: int| 0 <= i < tail.len() && tail[i] == c;
            assert(text[i + 1] == c);
        }
        lemma_plain_text(tail, rest);
        assert((text + rest).skip(1) =~= tail + rest);
        let first = seq![char_token(text, 0)];
        assert(plain(text) =~= first + plain(tail)) by {
            assert forall|i: int| 0 <= i < text.len() implies plain(text)[i] == (first + plain(tail))[i] by {
                if i > 0 {
                    assert(plain(tail)[i - 1] == char_token(tail, i - 1));
                    assert(tail[i - 1] == text[i]);
                }
            }
        }
        assert(tokens(text + rest) == first + tokens(tail + rest));
        assert(first + (plain(tail) + tokens(rest)) =~= first + plain(tail) + tokens(rest));
    }
}

proof fn lemma_name_len(name: Seq<char>, rest: Seq<char>)
    requires
        !name.contains('"'),
    ensures
        name_len(name + (seq!['"'] + rest)) == name.len() + 1,
    decreases name.len(),
{
    let text = name + (seq!['"'] + rest);
    if name.len() > 0 {
        let tail = name.skip(1);
        assert(name.contains(name[0]));
        assert forall|c: char| tail.contains(c) implies name.contains(c) by {
            let i = choose|i: int| 0 <= i < tail.len() && tail[i] == c;
            assert(name[i + 1] == c);
        }
        lemma_name_len(tail, rest);
        assert(text.skip(1) =~= tail + (seq!['"'] + rest));
    }
}

proof fn lemma_name_tokens(name: Seq<char>, rest: Seq<char>)
    requires
        !name.contains('"'),
    ensures
        tokens(seq!['"'] + name + seq!['"'] + rest) == plain(seq!['"'] + name + seq!['"']) + tokens(
            rest,
        ),
{
    let ident = seq!['"'] + name + seq!['"'];
    let text = ident + rest;
    lemma_name_len(name, rest);
    assert(text.skip(1) =~= name + (seq!['"'] + rest));
    assert(text.take(ident.len() as int) =~= ident);
    assert(text.skip(ident.len() as int) =~= rest);
}

proof fn lemma_string(s: Seq<char>, rest: Seq<char>)
    requires
        rest.len() > 0 ==> rest[0] != '\'',
    ensures
        string_content(doubled_quotes(s) + (seq!['\''] + rest)) == s,
        string_len(doubled_quotes(s) + (seq!['\''] + rest)) == doubled_quotes(s).len() + 1,
    decreases s.len(),
{
    let end = seq!['\''] + rest;
    let text = doubled_quotes(s) + end;
    if s.len() == 0 {
        assert(text =~= end);
    } else {
        let first = seq![s[0]];
        let tail = s.skip(1);
        assert(s =~= first + tail);
        law_quotes_are_doubled(first, tail);
        assert(first.drop_last() =~= Seq::empty());
        reveal_with_fuel(doubled_quotes, 2);
        lemma_string(tail, rest);
        let more = doubled_quotes(tail) + end;
        if s[0] == '\'' {
            assert(doubled_quotes(first) =~= seq!['\'', '\'']);
            assert(text.skip(2) =~= more);
            assert(text[0] == '\'' && text[1] == '\'');
        } else {
            assert(doubled_quotes(first) =~= first);
            assert(text.skip(1) =~= more);
            assert(text[0] == s[0]);
        }
        assert(seq![s[0]] + tail =~= s);
    }
}

proof fn lemma_quoted_tokens(s: Seq<char>, rest: Seq<char>)
    requires
        rest.len() > 0 ==> rest[0] != '\'',
    ensures
        tokens(quoted(s) + rest) == seq![Token::Text(s)] + tokens(rest),
{
    reveal_strlit("'");
    let text = quoted(s) + rest;
    lemma_string(s, rest);
    assert(text.skip(1) =~= doubled_quotes(s) + (seq!['\''] + rest));
    assert(text.skip(quoted(s).len() as int) =~= rest);
}

/// What stands at a position of a list of strings.
pub open spec fn list_token(files: Seq<Seq<char>>, i: int) -> Token {
    if i % 2 == 0 {
        Token::Text(files[i / 2])
    } else {
        Token::Char(',')
    }
}

/// Strings with a comma between each two of them.
pub open spec fn listed(files: Seq<Seq<char>>) -> Seq<Token> {
    Seq::new(
        if files.len() == 0 {
            0
        } else {
            (2 * files.len() - 1) as nat
        },
        |i: int| list_token(files, i),
    )
}

proof fn lemma_list_tokens(files: Seq<Seq<char>>, rest: Seq<char>)
    requires
        rest.len() > 0 ==> rest[0] != '\'',
    ensures
        tokens(joined(files.map_values(|f: Seq<char>| quoted(f)), ","@) + rest) == listed(files)
            + tokens(rest),
    decreases files.len(),
{
    reveal_strlit(",");
    let parts = files.map_values(|f: Seq<char>| quoted(f));
    let text = joined(parts, ","@);
    if files.len() == 0 {
        assert(text + rest =~= rest);
        assert(listed(files) + tokens(rest) =~= tokens(rest));
    } else if files.len() == 1 {
        lemma_quoted_tokens(files[0], rest);
        assert(listed(files) =~= seq![Token::Text(files[0])]);
    } else {
        let front = files.drop_last();
        let last = quoted(files.last());
        let after = ","@ + (last + rest);
        assert(parts.drop_last() =~= front.map_values(|f: Seq<char>| quoted(f)));
        assert(text + rest =~= joined(parts.drop_last(), ","@) + after);
        lemma_list_tokens(front, after);
        assert(!","@.contains('"') && !","@.contains('\''));
        lemma_plain_text(","@, last + rest);
        lemma_quoted_tokens(files.last(), rest);
        assert(listed(files) + tokens(rest) =~= listed(front) + (plain(","@) + (seq![
            Token::Text(files.last()),
        ] + tokens(rest))));
    }
}

/// What the database reads in the statement of a view: the name of the view, and
/// after it every file, in its order, by just its path. One file stands alone;
/// otherwise the files stand in brackets, with a comma between each two.
pub proof fn law_view_statement_names_every_file(
    table_name: &str,
    files: Vec<String>,
    sql: String,
)
    requires
        !table_name@.contains('"'),
        call_ensures(create_view_sql, (table_name, &files), sql),
    ensures
        tokens(sql@) == plain(
            "CREATE VIEW \""@ + table_name@ + "\" AS SELECT * FROM read_parquet("@,
        ) + (if files@.len() == 1 {
            seq![Token::Text(files@[0]@)]
        } else {
            seq![Token::Char('[')] + listed(texts(files@)) + seq![Token::Char(']')]
        }) + seq![Token::Char(')')],
        forall|k: int| 0 <= k < files@.len() ==> tokens(sql@).contains(
            Token::Text((#[trigger] files@[k])@),
        ),
{
    lemma_view_tokens(table_name@, texts(files@));
    assert forall|k: int| 0 <= k < files@.len() implies tokens(sql@).contains(
        Token::Text((#[trigger] files@[k])@),
    ) by {
        lemma_file_is_named(table_name@, texts(files@), k);
    }
}

/// What stands in a view statement in front of the files.
pub open spec fn view_head(table_name: Seq<char>) -> Seq<char> {
    "CREATE VIEW \""@ + table_name + "\" AS SELECT * FROM read_parquet("@
}

/// How the files of a view are named.
pub open spec fn named_files(files: Seq<Seq<char>>) -> Seq<Token> {
    if files.len() == 1 {
        seq![Token::Text(files[0])]
    } else {
        seq![Token::Char('[')] + listed(files) + seq![Token::Char(']')]
    }
}

proof fn lemma_view_tokens(table_name: Seq<char>, files: Seq<Seq<char>>)
    requires
        !table_name.contains('"'),
    ensures
        tokens(view_sql(table_name, files)) == plain(view_head(table_name)) + named_files(files)
            + seq![Token::Char(')')],
{
    reveal_strlit("CREATE VIEW \"");
    reveal_strlit("\" AS SELECT * FROM read_parquet(");
    reveal_strlit(")");
    reveal_strlit("[");
    reveal_strlit("]");
    let create = "CREATE VIEW \""@.drop_last();
    let from = "\" AS SELECT * FROM read_parquet("@.skip(1);
    let ident = seq!['"'] + table_name + seq!['"'];
    let close = ")"@;
    let body = if files.len() == 1 {
        quoted(files[0])
    } else {
        "["@ + joined(files.map_values(|f: Seq<char>| quoted(f)), ","@) + "]"@
    };
    let sql = view_sql(table_name, files);
    assert(sql =~= create + (ident + (from + (body + close))));
    assert(!create.contains('"') && !create.contains('\''));
    assert(!from.contains('"') && !from.contains('\''));
    assert(!close.contains('"') && !close.contains('\''));
    lemma_plain_text(create, ident + (from + (body + close)));
    lemma_name_tokens(table_name, from + (body + close));
    lemma_plain_text(from, body + close);
    lemma_plain_text(close, Seq::empty());
    assert(close + Seq::<char>::empty() =~= close);
    assert(tokens(close) =~= seq![Token::Char(')')]);
    if files.len() == 1 {
        lemma_quoted_tokens(files[0], close);
    } else {
        let list = joined(files.map_values(|f: Seq<char>| quoted(f)), ","@);
        let end = "]"@ + close;
        assert(!"["@.contains('"') && !"["@.contains('\''));
        assert(!"]"@.contains('"') && !"]"@.contains('\''));
        assert(body + close =~= "["@ + (list + end));
        lemma_plain_text("["@, list + end);
        lemma_list_tokens(files, end);
        lemma_plain_text("]"@, close);
        assert(plain("["@) =~= seq![Token::Char('[')]);
        assert(plain("]"@) =~= seq![Token::Char(']')]);
    }
    assert(plain(create) + (plain(ident) + plain(from)) =~= plain(view_head(table_name)));
    assert(tokens(sql) =~= plain(view_head(table_name)) + named_files(files) + seq![
        Token::Char(')'),
    ]);
}

proof fn lemma_file_is_named(table_name: Seq<char>, files: Seq<Seq<char>>, k: int)
    requires
        !table_name.contains('"'),
        0 <= k < files.len(),
    ensures
        tokens(view_sql(table_name, files)).contains(Token::Text(files[k])),
{
    lemma_view_tokens(table_name, files);
    let head = plain(view_head(table_name));
    let read = tokens(view_sql(table_name, files));
    if files.len() == 1 {
        assert(read[head.len() as int] == Token::Text(files[k]));
    } else {
        assert(listed(files)[2 * k] == Token::Text(files[k]));
        assert(read[head.len() + 1 + 2 * k] == Token::Text(files[k]));
    }
}

proof fn lemma_named_is_file(table_name: Seq<char>, files: Seq<Seq<char>>, path: Seq<char>)
    requires
        !table_name.contains('"'),
        tokens(view_sql(table_name, files)).contains(Token::Text(path)),
    ensures
        files.contains(path),
{
    lemma_view_tokens(table_name, files);
    let head = plain(view_head(table_name));
    let read = tokens(view_sql(table_name, files));
    let i = choose|i: int| 0 <= i < read.len() && read[i] == Token::Text(path);
    if i < head.len() {
        assert(read[i] == head[i]);
    } else if files.len() == 1 {
        assert(files[0] == path);
    } else {
        let j = i - head.len() - 1;
        assert(0 <= j < listed(files).len());
        assert(read[i] == listed(files)[j]);
        assert(files[j / 2] == path);
    }
}

/// Whether the database reads a path among the strings of a statement.
pub open spec fn reads_file(statement: ViewStatement, path: Seq<char>) -> bool {
    tokens(statement.sql@).contains(Token::Text(path))
}

/// Whether a name is that of a Parquet file: the extension stands behind something.
pub open spec fn ends_in_parquet(name: Seq<char>) -> bool {
    exists|stem: Seq<char>| stem.len() > 0 && name == #[trigger] (stem + ".parquet"@)
}

proof fn lemma_is_parquet(name: Seq<char>)
    ensures
        is_parquet(name) <==> ends_in_parquet(name),
{
    if is_parquet(name) {
        let stem = name.take(name.len() - ".parquet"@.len());
        assert(name =~= stem + ".parquet"@);
    }
    if ends_in_parquet(name) {
        let stem = choose|stem: Seq<char>| stem.len() > 0 && name == #[trigger] (stem + ".parquet"@);
        assert(name.skip(name.len() - ".parquet"@.len()) =~= ".parquet"@);
    }
}

/// A file is a Parquet file exactly if its name is something with `.parquet` behind it.
pub proof fn law_parquet_names(name: &str, yes: bool)
    requires
        call_ensures(is_parquet_name, (name,), yes),
    ensures
        yes <==> ends_in_parquet(name@),
{
    lemma_is_parquet(name@);
}

/// Whether `_chunk` stands at a position of a text.
pub open spec fn chunk_at(text: Seq<char>, i: int) -> bool {
    0 <= i <= text.len() - 6 && text.subrange(i, i + 6) == seq!['_', 'c', 'h', 'u', 'n', 'k']
}

/// Whether a text is the part of a stem in front of its last `_chunk`, or the whole
/// stem where there is none.
pub open spec fn is_base_of_stem(base: Seq<char>, stem: Seq<char>) -> bool {
    ||| base == stem && forall|i: int| !chunk_at(stem, i)
    ||| {
        &&& chunk_at(stem, base.len() as int)
        &&& stem.take(base.len() as int) == base
        &&& forall|i: int| i > base.len() ==> !chunk_at(stem, i)
    }
}

proof fn lemma_last_is_last(stem: Seq<char>, from: int)
    ensures
        ({
            let r = last_occurrence(stem, "_chunk"@, from);
            &&& r >= 0 ==> r <= from && chunk_at(stem, r)
            &&& forall|i: int| r < i <= from ==> !chunk_at(stem, i)
        }),
    decreases from + 1,
{
    reveal_strlit("_chunk");
    assert("_chunk"@ =~= seq!['_', 'c', 'h', 'u', 'n', 'k']);
    if from >= 0 {
        assert(occurs_at(stem, "_chunk"@, from) <==> chunk_at(stem, from));
        if !occurs_at(stem, "_chunk"@, from) {
            lemma_last_is_last(stem, from - 1);
        }
    }
}

proof fn lemma_chunk_base(stem: Seq<char>)
    ensures
        is_base_of_stem(chunk_base(stem), stem),
{
    lemma_last_is_last(stem, stem.len() as int);
    let r = last_occurrence(stem, "_chunk"@, stem.len() as int);
    if r >= 0 {
        assert(stem.take(r).len() == r);
    }
}

/// The base name of a file is what stands in front of the last `_chunk` of its name
/// without the extension, or all of that.
pub proof fn law_base_name_stands_before_the_last_chunk(
    file_name: &str,
    stem: Seq<char>,
    base: String,
)
    requires
        stem.len() > 0,
        file_name@ == stem + ".parquet"@,
        call_ensures(base_name, (file_name,), base),
    ensures
        is_base_of_stem(base@, stem),
{
    assert(parquet_stem(file_name@) =~= stem);
    lemma_chunk_base(stem);
}

/// As many files are counted as have the name of a Parquet file, wherever they stand
/// in the listing; none if there is no listing.
pub proof fn law_parquet_files_are_counted(
    front: Vec<String>,
    back: Vec<String>,
    all: Vec<String>,
    a: usize,
    b: usize,
    c: usize,
    none: usize,
)
    requires
        call_ensures(count_parquet_files, (Some(&front),), a),
        call_ensures(count_parquet_files, (Some(&back),), b),
        call_ensures(count_parquet_files, (Some(&all),), c),
        call_ensures(count_parquet_files, (None::<&Vec<String>>,), none),
        all@ == front@ + back@,
    ensures
        c == a + b,
        front@.len() == 0 ==> a == 0,
        front@.len() == 1 ==> (a == 1 <==> ends_in_parquet(front@[0]@)) && a <= 1,
        none == 0,
{
    assert(texts(all@) =~= texts(front@) + texts(back@));
    lemma_count_adds(texts(front@), texts(back@));
    if front@.len() == 1 {
        lemma_is_parquet(front@[0]@);
        assert(texts(front@).last() == front@[0]@);
        assert(texts(front@).drop_last().len() == 0);
        reveal_with_fuel(parquet_count, 2);
    }
}

proof fn lemma_count_adds(a: Seq<Seq<char>>, b: Seq<Seq<char>>)
    ensures
        parquet_count(a + b) == parquet_count(a) + parquet_count(b),
    decreases b.len(),
{
    if b.len() == 0 {
        assert(a + b =~= a);
    } else {
        lemma_count_adds(a, b.drop_last());
        assert((a + b).drop_last() =~= a + b.drop_last());
    }
}

/// Whether a statement creates a view whose name the database reads as that of the
/// statement.
pub open spec fn names_its_view(statement: ViewStatement) -> bool {
    let head = plain(view_head(statement.table_name@));
    head.is_prefix_of(tokens(statement.sql@))
}

proof fn lemma_planned(entries: Seq<DirEntry>, statements: Seq<ViewStatement>, k: int)
    requires
        creates_views(statements, entries),
        0 <= k < statements.len(),
    ensures
        bases_of(entries).len() == statements.len(),
        !statements[k].table_name@.contains('"'),
        statements[k].table_name@.len() > 0,
        statements[k].sql@ == view_sql(
            statements[k].table_name@,
            files_of(entries, bases_of(entries)[k]),
        ),
        names_its_view(statements[k]),
        forall|path: Seq<char>| #[trigger] reads_file(statements[k], path) <==> files_of(
            entries,
            bases_of(entries)[k],
        ).contains(path),
{
    let base = bases_of(entries)[k];
    let files = files_of(entries, base);
    let name = statements[k].table_name@;
    assert(creates_view(statements[k], entries, k));
    law_table_names_are_valid(bases_of(entries), k);
    lemma_view_tokens(name, files);
    assert(plain(view_head(name)).is_prefix_of(tokens(statements[k].sql@)));
    assert forall|path: Seq<char>| #[trigger] reads_file(statements[k], path) <==> files.contains(
        path,
    ) by {
        if reads_file(statements[k], path) {
            lemma_named_is_file(name, files, path);
        }
        if files.contains(path) {
            let f = choose|f: int| 0 <= f < files.len() && files[f] == path;
            lemma_file_is_named(name, files, f);
        }
    }
}

/// Every Parquet file of a directory can be queried: some view reads it, and that
/// view reads every other file with the same base name, too.
pub proof fn law_every_parquet_file_is_read(
    entries: Vec<DirEntry>,
    statements: Vec<ViewStatement>,
    i: int,
) -> (k: int)
    requires
        call_ensures(plan_views, (&entries,), statements),
        0 <= i < entries@.len(),
        ends_in_parquet(entries@[i].file_name@),
    ensures
        0 <= k < statements@.len(),
        names_its_view(statements@[k]),
        reads_file(statements@[k], entries@[i].path@),
        forall|j: int, base: Seq<char>, stem: Seq<char>, other: Seq<char>|
            #![trigger entries@[j], is_base_of_stem(base, stem), is_base_of_stem(base, other)]
            0 <= j < entries@.len() && stem.len() > 0 && other.len() > 0
                && entries@[i].file_name@ == stem + ".parquet"@ && entries@[j].file_name@ == other
                + ".parquet"@ && is_base_of_stem(base, stem) && is_base_of_stem(base, other)
                ==> reads_file(statements@[k], entries@[j].path@),
{
    let all = entries@;
    let base_i = base_of(all[i]);
    lemma_is_parquet(all[i].file_name@);
    law_every_parquet_file_has_a_view(all, i);
    let k = choose|k: int| 0 <= k < bases_of(all).len() && bases_of(all)[k] == base_i;
    lemma_planned(all, statements@, k);
    assert(reads_file(statements@[k], all[i].path@));
    assert forall|j: int, base: Seq<char>, stem: Seq<char>, other: Seq<char>|
        #![trigger entries@[j], is_base_of_stem(base, stem), is_base_of_stem(base, other)]
        0 <= j < all.len() && stem.len() > 0 && other.len() > 0 && all[i].file_name@ == stem
            + ".parquet"@ && all[j].file_name@ == other + ".parquet"@ && is_base_of_stem(base, stem)
            && is_base_of_stem(base, other) implies reads_file(statements@[k], all[j].path@) by {
        lemma_base_is_unique(all[i], stem, base);
        lemma_base_is_unique(all[j], other, base);
        lemma_is_parquet(all[j].file_name@);
        law_every_parquet_file_has_a_view(all, j);
        assert(files_of(all, base_i).contains(all[j].path@));
    }
    k
}

proof fn lemma_base_is_unique(entry: DirEntry, stem: Seq<char>, base: Seq<char>)
    requires
        stem.len() > 0,
        entry.file_name@ == stem + ".parquet"@,
        is_base_of_stem(base, stem),
    ensures
        base_of(entry) == base,
{
    assert(parquet_stem(entry.file_name@) =~= stem);
    lemma_chunk_base(stem);
    let b = chunk_base(stem);
    if b.len() < base.len() {
        assert(chunk_at(stem, b.len() as int) || b == stem);
        assert(!chunk_at(stem, base.len() as int) || b == stem);
    } else if base.len() < b.len() {
        assert(!chunk_at(stem, b.len() as int));
    }
    assert(stem.take(stem.len() as int) =~= stem);
    assert(b =~= base);
}

/// A view reads only Parquet files of the directory, and all of them have the same
/// base name.
pub proof fn law_views_read_only_their_files(
    entries: Vec<DirEntry>,
    statements: Vec<ViewStatement>,
    k: int,
    path: Seq<char>,
) -> (i: int)
    requires
        call_ensures(plan_views, (&entries,), statements),
        0 <= k < statements@.len(),
        reads_file(statements@[k], path),
    ensures
        0 <= i < entries@.len(),
        entries@[i].path@ == path,
        ends_in_parquet(entries@[i].file_name@),
        base_of(entries@[i]) == bases_of(entries@)[k],
{
    let all = entries@;
    lemma_planned(all, statements@, k);
    let base = bases_of(all)[k];
    let f = choose|f: int| 0 <= f < files_of(all, base).len() && files_of(all, base)[f] == path;
    law_views_hold_listed_files(all, base, f);
    let i = choose|i: int| #![trigger all[i]]
        0 <= i < all.len() && is_parquet(all[i].file_name@) && base_of(all[i]) == base
            && all[i].path@ == files_of(all, base)[f];
    lemma_is_parquet(all[i].file_name@);
    i
}

/// Two views have different names, whatever the case of their letters, and read files
/// of different base names; each reads a file at least.
pub proof fn law_views_are_apart(
    entries: Vec<DirEntry>,
    statements: Vec<ViewStatement>,
    a: int,
    b: int,
)
    requires
        call_ensures(plan_views, (&entries,), statements),
        0 <= a < b < statements@.len(),
    ensures
        folded(statements@[a].table_name@) != folded(statements@[b].table_name@),
        bases_of(entries@)[a] != bases_of(entries@)[b],
        exists|path: Seq<char>| reads_file(statements@[a], path),
        exists|path: Seq<char>| reads_file(statements@[b], path),
{
    let all = entries@;
    let bases = bases_of(all);
    lemma_planned(all, statements@, a);
    lemma_planned(all, statements@, b);
    assert(creates_view(statements@[a], all, a));
    assert(creates_view(statements@[b], all, b));
    law_table_names_are_distinct(bases, a, b);
    law_views_are_distinct(all);
    assert(bases.contains(bases[a]) && bases.contains(bases[b]));
    law_no_view_is_empty(all, bases[a]);
    law_no_view_is_empty(all, bases[b]);
    assert(files_of(all, bases[a]).contains(files_of(all, bases[a])[0]));
    assert(files_of(all, bases[b]).contains(files_of(all, bases[b])[0]));
    assert(reads_file(statements@[a], files_of(all, bases[a])[0]));
    assert(reads_file(statements@[b], files_of(all, bases[b])[0]));
}

/// The files of a group keep the order of the listing: those of its first part come
/// first, each Parquet file of the base name once.
pub proof fn law_groups_keep_the_listing(
    front: Seq<DirEntry>,
    back: Seq<DirEntry>,
    base: Seq<char>,
)
    ensures
        files_of(front + back, base) == files_of(front, base) + files_of(back, base),
        front.len() == 1 ==> files_of(front, base) == if ends_in_parquet(front[0].file_name@)
            && base_of(front[0]) == base {
            seq![front[0].path@]
        } else {
            Seq::empty()
        },
        front.len() == 0 ==> files_of(front, base).len() == 0,
    decreases back.len(),
{
    if front.len() == 1 {
        lemma_is_parquet(front[0].file_name@);
        assert(front.drop_last().len() == 0);
        reveal_with_fuel(files_of, 2);
        assert(front.last() == front[0]);
        assert(files_of(front, base) =~= if is_parquet(front[0].file_name@) && base_of(front[0])
            == base {
            seq![front[0].path@]
        } else {
            Seq::empty()
        });
    }
    if back.len() == 0 {
        assert(front + back =~= front);
        assert(files_of(front, base) + files_of(back, base) =~= files_of(front, base));
    } else {
        law_groups_keep_the_listing(front, back.drop_last(), base);
        assert((front + back).drop_last() =~= front + back.drop_last());
        assert(files_of(front + back, base) =~= files_of(front, base) + files_of(back, base));
    }
}

/// Every group holds the files of its base name in the order of the listing, and
/// every Parquet file stands in the group of its base name.
pub proof fn law_groups_hold_their_files(
    entries: Vec<DirEntry>,
    groups: Vec<FileGroup>,
    i: int,
) -> (k: int)
    requires
        call_ensures(group_files, (&entries,), groups),
        0 <= i < entries@.len(),
        ends_in_parquet(entries@[i].file_name@),
    ensures
        0 <= k < groups@.len(),
        groups@[k].base@ == base_of(entries@[i]),
        texts(groups@[k].files@) == files_of(entries@, base_of(entries@[i])),
        texts(groups@[k].files@).contains(entries@[i].path@),
{
    let all = entries@;
    lemma_is_parquet(all[i].file_name@);
    law_every_parquet_file_has_a_view(all, i);
    let k = choose|k: int| 0 <= k < bases_of(all).len() && bases_of(all)[k] == base_of(all[i]);
    assert(groups@[k].base@ == bases_of(all)[k]);
    k
}

/// A registration begins with nothing tried, and a view that reads it is to be
/// created for every Parquet file.
pub proof fn law_registration_tries_the_planned_views(
    entries: Vec<DirEntry>,
    registration: ViewRegistration,
    i: int,
) -> (k: int)
    requires
        call_ensures(register_parquet_views, (&entries,), registration),
        0 <= i < entries@.len(),
        ends_in_parquet(entries@[i].file_name@),
    ensures
        registration.outcomes().len() == 0,
        0 <= k < registration.statements().len(),
        reads_file(registration.statements()[k], entries@[i].path@),
        registration.statements().len() == bases_of(entries@).len(),
{
    let all = entries@;
    lemma_is_parquet(all[i].file_name@);
    law_every_parquet_file_has_a_view(all, i);
    let k = choose|k: int| 0 <= k < bases_of(all).len() && bases_of(all)[k] == base_of(all[i]);
    lemma_planned(all, registration.statements(), k);
    assert(reads_file(registration.statements()[k], all[i].path@));
    k
}

/// As many tables are counted as views were created.
pub proof fn law_created_views_are_counted(
    registration: ViewRegistration,
    front: Seq<bool>,
    back: Seq<bool>,
    count: usize,
)
    requires
        call_ensures(ViewRegistration::table_count, (&registration,), count),
        registration.outcomes() == front + back,
    ensures
        count == successes(front) + successes(back),
        front.len() == 0 ==> successes(front) == 0,
        front == seq![true] ==> successes(front) == 1,
        front == seq![false] ==> successes(front) == 0,
{
    lemma_successes_add(front, back);
    assert(seq![true].drop_last() =~= Seq::<bool>::empty());
    assert(seq![false].drop_last() =~= Seq::<bool>::empty());
    reveal_with_fuel(successes, 2);
}

proof fn lemma_successes_add(a: Seq<bool>, b: Seq<bool>)
    ensures
        successes(a + b) == successes(a) + successes(b),
    decreases b.len(),
{
    if b.len() == 0 {
        assert(a + b =~= a);
    } else {
        lemma_successes_add(a, b.drop_last());
        assert((a + b).drop_last() =~= a + b.drop_last());
    }
}

/// The statement to execute next is that of the first view that was not tried.
pub proof fn law_views_are_tried_in_turn(registration: ViewRegistration, sql: Option<&str>)
    requires
        call_ensures(ViewRegistration::next_statement, (&registration,), sql),
    ensures
        sql is Some <==> registration.outcomes().len() < registration.statements().len(),
        sql matches Some(text) ==> text@
            == registration.statements()[registration.outcomes().len() as int].sql@,
{
}

/// Each outcome is kept: nothing that was tried before changes, the views stay the
/// same, and a view counts as created exactly if its statement succeeded. A failure
/// is reported with the name of the view and the error.
pub proof fn law_outcomes_are_kept(
    before: ViewRegistration,
    outcome: Result<(), String>,
    after: ViewRegistration,
    warning: Option<String>,
    tables_before: usize,
    tables_after: usize,
)
    requires
        records(before, outcome, after, warning),
        call_ensures(ViewRegistration::table_count, (&before,), tables_before),
        call_ensures(ViewRegistration::table_count, (&after,), tables_after),
    ensures
        after.statements() == before.statements(),
        after.outcomes().len() == before.outcomes().len() + 1,
        after.outcomes().drop_last() == before.outcomes(),
        after.outcomes().last() <==> outcome is Ok,
        outcome is Ok ==> tables_after == tables_before + 1 && warning is None,
        outcome matches Err(e) ==> tables_after == tables_before && warning is Some
            && e@.is_suffix_of(warning->0@) && warning->0@ == "Warning: failed to register "@
            + before.statements()[before.outcomes().len() as int].table_name@ + ": "@ + e@,
{
    assert(after.outcomes().drop_last() =~= before.outcomes());
}

/// A table name is made piece by piece, and each character of a base name but dots,
/// hyphens, double quotes and dollar signs stays as it is.
pub proof fn law_table_name_is_made_piece_by_piece(
    front: &str,
    back: &str,
    whole: &str,
    a: String,
    b: String,
    c: String,
)
    requires
        call_ensures(sanitize_table_name, (front,), a),
        call_ensures(sanitize_table_name, (back,), b),
        call_ensures(sanitize_table_name, (whole,), c),
        whole@ == front@ + back@,
    ensures
        front@.len() > 0 && back@.len() > 0 ==> c@ == a@ + b@,
        front@.len() == 0 ==> a@ == seq!['_'],
        front@.len() == 1 ==> a@ == if front@[0] == '.' || front@[0] == '-' || front@[0] == '"' {
            seq!['_']
        } else if front@[0] == '$' {
            seq!['_', 'D', '_']
        } else {
            front@
        },
{
    reveal_strlit("_");
    reveal_strlit("_D_");
    assert("_"@ =~= seq!['_']);
    assert("_D_"@ =~= seq!['_', 'D', '_']);
    lemma_sanitized_adds(front@, back@);
    if front@.len() == 1 {
        assert(front@.drop_last() =~= Seq::empty());
        reveal_with_fuel(sanitized_chars, 2);
        assert(front@ =~= seq![front@[0]]);
        assert(a@ =~= sanitized_char(front@[0]));
    }
}

proof fn lemma_sanitized_adds(a: Seq<char>, b: Seq<char>)
    ensures
        sanitized_chars(a + b) == sanitized_chars(a) + sanitized_chars(b),
    decreases b.len(),
{
    if b.len() == 0 {
        assert(a + b =~= a);
        assert(sanitized_chars(a) + sanitized_chars(b) =~= sanitized_chars(a));
    } else {
        lemma_sanitized_adds(a, b.drop_last());
        assert((a + b).drop_last() =~= a + b.drop_last());
        assert(sanitized_chars(a + b) =~= sanitized_chars(a) + sanitized_chars(b));
    }
}

/// Whether two texts are the same but for the case of ASCII letters.
pub open spec fn same_but_for_case(a: Seq<char>, b: Seq<char>) -> bool {
    &&& a.len() == b.len()
    &&& forall|i: int| #![trigger a[i], b[i]]
        0 <= i < a.len() ==> a[i] == b[i] || 'A' <= a[i] <= 'Z' && b[i] as int == a[i] as int + 32
            || 'A' <= b[i] <= 'Z' && a[i] as int == b[i] as int + 32
}

/// Two names agree in folded form exactly if they are the same but for case.
pub proof fn law_folding_ignores_case(a: Seq<char>, b: Seq<char>)
    ensures
        folded(a) == folded(b) <==> same_but_for_case(a, b),
{
    if folded(a) == folded(b) {
        assert(folded(a).len() == a.len() && folded(b).len() == b.len());
        assert forall|i: int| #![trigger a[i], b[i]] 0 <= i < a.len() implies a[i] == b[i] || 'A'
            <= a[i] <= 'Z' && b[i] as int == a[i] as int + 32 || 'A' <= b[i] <= 'Z' && a[i] as int
            == b[i] as int + 32 by {
            assert(folded(a)[i] == folded(b)[i]);
        }
    }
    if same_but_for_case(a, b) {
        assert forall|i: int| 0 <= i < a.len() implies folded(a)[i] == folded(b)[i] by {
            assert(a[i] == a[i] && b[i] == b[i]);
        }
        assert(folded(a) =~= folded(b));
    }
}

/// Every base name gets a table name, and that of a base name which no other
/// sanitizes to the same as, but for case, is its sanitized form. No two table names
/// are the same but for case.
pub proof fn law_tables_are_named_after_their_files(
    bases: Vec<String>,
    names: Vec<String>,
    clean: String,
    k: int,
    j: int,
)
    requires
        call_ensures(name_tables, (&bases,), names),
        0 <= k < bases@.len(),
        0 <= j < bases@.len(),
        clean@ == sanitized(bases@[k]@),
    ensures
        names@.len() == bases@.len(),
        (forall|i: int|
            0 <= i < bases@.len() && i != k ==> !same_but_for_case(
                sanitized((#[trigger] bases@[i])@),
                clean@,
            )) ==> names@[k]@ == clean@,
        j != k ==> !same_but_for_case(names@[j]@, names@[k]@),
        names@[k]@.len() > 0,
        !names@[k]@.contains('"'),
{
    let all = texts(bases@);
    lemma_table_names_len(all);
    assert(texts(names@).len() == names@.len());
    assert(texts(names@)[k] == names@[k]@ && texts(names@)[j] == names@[j]@);
    law_table_names_are_valid(all, k);
    if j < k {
        law_table_names_are_distinct(all, j, k);
    } else if k < j {
        law_table_names_are_distinct(all, k, j);
    }
    law_folding_ignores_case(names@[j]@, names@[k]@);
    if forall|i: int|
        0 <= i < bases@.len() && i != k ==> !same_but_for_case(
            sanitized((#[trigger] bases@[i])@),
            clean@,
        ) {
        assert forall|i: int| #![trigger all[i]] 0 <= i < all.len() && i != k implies table_key(all, i)
            != table_key(all, k) by {
            assert(!same_but_for_case(sanitized(bases@[i]@), clean@));
            law_folding_ignores_case(sanitized(bases@[i]@), clean@);
        }
        law_name_without_rival_is_kept(all, k);
    }
}

/// Recording an outcome is a step of the registration in every case.
pub proof fn law_recording_takes_the_outcome(
    registration: &mut ViewRegistration,
    outcome: Result<(), String>,
    warning: Option<String>,
)
    requires
        old(registration).pending(),
        call_ensures(ViewRegistration::record, (registration, outcome), warning),
    ensures
        records(*old(registration), outcome, *final(registration), warning),
        final(registration).statements() == old(registration).statements(),
        final(registration).outcomes() == old(registration).outcomes().push(outcome is Ok),
        warning is None <==> outcome is Ok,
{
}

/// The views are those of the groups, one for each: its name is that which the base names
/// together give it, and its statement names the files of the group.
pub proof fn law_views_are_those_of_the_groups(
    entries: Vec<DirEntry>,
    statements: Vec<ViewStatement>,
    groups: Vec<FileGroup>,
    bases: Vec<String>,
    names: Vec<String>,
    k: int,
    name: &str,
    sql: String,
)
    requires
        call_ensures(plan_views, (&entries,), statements),
        call_ensures(group_files, (&entries,), groups),
        bases@.len() == groups@.len(),
        forall|i: int| 0 <= i < groups@.len() ==> (#[trigger] bases@[i])@ == groups@[i].base@,
        call_ensures(name_tables, (&bases,), names),
        0 <= k < groups@.len(),
        name@ == names@[k]@,
        call_ensures(create_view_sql, (name, &groups@[k].files), sql),
    ensures
        statements@.len() == groups@.len(),
        names@.len() == groups@.len(),
        statements@[k].table_name@ == names@[k]@,
        statements@[k].sql@ == sql@,
{
    let all = bases_of(entries@);
    assert forall|i: int| 0 <= i < all.len() implies texts(bases@)[i] == all[i] by {
        assert(bases@[i]@ == groups@[i].base@);
    }
    assert(texts(bases@) =~= all);
    lemma_table_names_len(all);
    assert(texts(names@).len() == names@.len());
    assert(texts(names@)[k] == names@[k]@);
    assert(creates_view(statements@[k], entries@, k));
    assert(groups@[k].base@ == all[k]);
}

/// The views of the first part of a listing come first, whatever else is listed.
pub proof fn law_views_keep_the_order(front: Seq<DirEntry>, back: Seq<DirEntry>)
    ensures
        bases_of(front).is_prefix_of(bases_of(front + back)),
    decreases back.len(),
{
    if back.len() == 0 {
        assert(front + back =~= front);
    } else {
        law_views_keep_the_order(front, back.drop_last());
        assert((front + back).drop_last() =~= front + back.drop_last());
        let before = bases_of(front + back.drop_last());
        let after = bases_of(front + back);
        assert(after.take(before.len() as int) =~= before);
        assert(after.take(bases_of(front).len() as int) =~= before.take(
            bases_of(front).len() as int,
        ));
    }
}

/// Whether a base name can stand in double quotes as it is.
pub open spec fn can_be_quoted(base: Seq<char>) -> bool {
    base.len() > 0 && forall|i: int| 0 <= i < base.len() ==> #[trigger] base[i] != '"'
}

/// Of the base names that sanitize to the same but for case, one gives its view that
/// name: the first that can be quoted as it is, or else the first. The views of the
/// others have underscores behind it.
pub proof fn law_best_base_name_gives_the_name(
    bases: Vec<String>,
    names: Vec<String>,
    k: int,
    i: int,
)
    requires
        call_ensures(name_tables, (&bases,), names),
        0 <= k < bases@.len(),
    ensures
        names@.len() == bases@.len(),
        names@[k]@ == sanitized(bases@[k]@) <==> forall|o: int|
            0 <= o < bases@.len() && o != k && same_but_for_case(
                sanitized((#[trigger] bases@[o])@),
                sanitized(bases@[k]@),
            ) ==> if can_be_quoted(bases@[o]@) == can_be_quoted(bases@[k]@) {
                k < o
            } else {
                can_be_quoted(bases@[k]@)
            },
        names@[k]@.len() >= sanitized(bases@[k]@).len(),
        names@[k]@.take(sanitized(bases@[k]@).len() as int) == sanitized(bases@[k]@),
        sanitized(bases@[k]@).len() <= i < names@[k]@.len() ==> names@[k]@[i] == '_',
{
    let all = texts(bases@);
    lemma_table_names_len(all);
    assert(texts(names@).len() == names@.len());
    assert(texts(names@)[k] == names@[k]@);
    law_made_up_name_adds_underscores(all, k, i);
    assert forall|o: int| 0 <= o < all.len() implies is_plain(#[trigger] all[o]) == can_be_quoted(
        all[o],
    ) by {
        let base = all[o];
        if base.contains('"') {
            let at = choose|at: int| 0 <= at < base.len() && base[at] == '"';
            assert(base[at] == '"');
        }
        if base.len() > 0 && !can_be_quoted(base) {
            let at = choose|at: int| 0 <= at < base.len() && #[trigger] base[at] == '"';
            assert(base.contains('"'));
        }
    }
    assert(is_plain(all[k]) == can_be_quoted(all[k]));
    assert forall|o: int| 0 <= o < all.len() implies (table_key(all, o) == table_key(all, k)
        <==> same_but_for_case(sanitized((#[trigger] bases@[o])@), sanitized(bases@[k]@))) by {
        assert(all[o] == bases@[o]@ && all[k] == bases@[k]@);
        law_folding_ignores_case(sanitized(bases@[o]@), sanitized(bases@[k]@));
    }
    if keeps_name(all, k) {
        assert forall|o: int| 0 <= o < bases@.len() && o != k && same_but_for_case(
            sanitized((#[trigger] bases@[o])@),
            sanitized(bases@[k]@),
        ) implies if can_be_quoted(bases@[o]@) == can_be_quoted(bases@[k]@) {
            k < o
        } else {
            can_be_quoted(bases@[k]@)
        } by {
            assert(all[o] == bases@[o]@);
            assert(outranks(all, k, o));
        }
    } else {
        let o = choose|o: int| #![trigger all[o]]
            0 <= o < all.len() && o != k && table_key(all, o) == table_key(all, k) && !outranks(
                all,
                k,
                o,
            );
        assert(all[o] == bases@[o]@);
    }
}

}
