//! Resolution of a path that begins with an alias: `$NAME/rest` becomes the
//! directory of `NAME`, the separator and `rest`.
//!
//! The entries of the table are tried in order and the first that fits
//! decides. What it yields is not looked at again: one pass, no nesting.

use vstd::prelude::*;
use crate::alias::{alias_views, sorted_by_name, Alias, AliasIndex};
use crate::request::{LinkKind, LinkRequest, LinkRequestView};
use crate::text::{
    is_separator,
    lemma_precedes_antisymmetric,
    lemma_prefix_precedes,
    precedes,
    to_chars,
};

verus! {

/// Where the separator stands in a path that begins with the alias `name`:
/// behind the dollar sign and the name.
pub open spec fn separator_at(name: Seq<char>) -> int {
    name.len() as int + 1
}

/// Whether `path` begins with the alias `name`: a dollar sign, the name, a
/// separator, and at least one character more.
pub open spec fn alias_matches(name: Seq<char>, path: Seq<char>) -> bool {
    &&& path.len() >= name.len() + 3
    &&& path[0] == '$'
    &&& path.subrange(1, separator_at(name)) == name
    &&& is_separator(path[separator_at(name)])
}

/// What `path` becomes under an alias that it begins with: the directory
/// in place of the dollar sign and the name, the rest as it stands.
pub open spec fn expansion(alias: Alias, path: Seq<char>) -> Seq<char> {
    alias.directory + path.skip(separator_at(alias.name))
}

/// What `path` resolves to against `table`: its expansion under the first
/// entry that it begins with, or `path` itself where there is none.
pub open spec fn resolved(path: Seq<char>, table: Seq<Alias>) -> Seq<char>
    decreases table.len(),
{
    if table.len() == 0 {
        path
    } else if alias_matches(table[0].name, path) {
        expansion(table[0], path)
    } else {
        resolved(path, table.drop_first())
    }
}

/// The path written with an alias: `$`, the name, a separator, the rest.
pub open spec fn alias_path(name: Seq<char>, separator: char, rest: Seq<char>) -> Seq<char> {
    seq!['$'] + name + seq![separator] + rest
}

/// Whether `name` holds no separator.
pub open spec fn is_plain_name(name: Seq<char>) -> bool {
    forall|k: int| 0 <= k < name.len() ==> !is_separator(#[trigger] name[k])
}

/// A path that begins with no alias of the table resolves to itself.
pub proof fn lemma_unmatched_path_unchanged(path: Seq<char>, table: Seq<Alias>)
    requires
        forall|i: int| 0 <= i < table.len() ==> !alias_matches(#[trigger] table[i].name, path),
    ensures
        resolved(path, table) == path,
    decreases table.len(),
{
    if table.len() > 0 {
        let rest = table.drop_first();
        assert forall|i: int| 0 <= i < rest.len() implies !alias_matches(
            #[trigger] rest[i].name,
            path,
        ) by {
            assert(rest[i] == table[i + 1]);
        }
        lemma_unmatched_path_unchanged(path, rest);
    }
}

/// The first entry that a path begins with decides what it resolves to.
pub proof fn lemma_first_match_decides(path: Seq<char>, table: Seq<Alias>, i: int)
    requires
        0 <= i < table.len(),
        alias_matches(table[i].name, path),
        forall|j: int| 0 <= j < i ==> !alias_matches(#[trigger] table[j].name, path),
    ensures
        resolved(path, table) == expansion(table[i], path),
    decreases table.len(),
{
    if i > 0 {
        let rest = table.drop_first();
        assert forall|j: int| 0 <= j < i - 1 implies !alias_matches(
            #[trigger] rest[j].name,
            path,
        ) by {
            assert(rest[j] == table[j + 1]);
        }
        lemma_first_match_decides(path, rest, i - 1);
    }
}

/// A path written with a name begins with the alias of that name, and its
/// expansion is the directory, the separator and the rest.
pub proof fn lemma_alias_path_matches(alias: Alias, separator: char, rest: Seq<char>)
    requires
        is_separator(separator),
        rest.len() > 0,
    ensures
        alias_matches(alias.name, alias_path(alias.name, separator, rest)),
        expansion(alias, alias_path(alias.name, separator, rest)) == alias.directory + seq![
            separator,
        ] + rest,
{
    let path = alias_path(alias.name, separator, rest);
    assert(path.subrange(1, separator_at(alias.name)) =~= alias.name);
    assert(alias.directory + (seq![separator] + rest) =~= alias.directory + seq![separator]
        + rest);
}

/// For an entry `(name, dir)` of the table, `$name/x` resolves to `dir`,
/// the separator and `x`, where no entry before it fits the path.
pub proof fn lemma_alias_resolves(table: Seq<Alias>, i: int, separator: char, rest: Seq<char>)
    requires
        0 <= i < table.len(),
        is_separator(separator),
        rest.len() > 0,
        forall|j: int|
            0 <= j < i ==> !alias_matches(
                #[trigger] table[j].name,
                alias_path(table[i].name, separator, rest),
            ),
    ensures
        resolved(alias_path(table[i].name, separator, rest), table) == table[i].directory + seq![
            separator,
        ] + rest,
{
    lemma_alias_path_matches(table[i], separator, rest);
    lemma_first_match_decides(alias_path(table[i].name, separator, rest), table, i);
}

/// In a sorted table, an entry whose name holds no separator, and which is
/// the first of its name, is the first that fits a path written with its
/// name.
pub proof fn lemma_plain_name_is_first_match(
    table: Seq<Alias>,
    i: int,
    separator: char,
    rest: Seq<char>,
)
    requires
        sorted_by_name(table),
        0 <= i < table.len(),
        is_plain_name(table[i].name),
        forall|j: int| 0 <= j < i ==> (#[trigger] table[j]).name != table[i].name,
    ensures
        forall|j: int|
            0 <= j < i ==> !alias_matches(
                #[trigger] table[j].name,
                alias_path(table[i].name, separator, rest),
            ),
{
    let name = table[i].name;
    let path = alias_path(name, separator, rest);
    assert forall|j: int| 0 <= j < i implies !alias_matches(#[trigger] table[j].name, path) by {
        let other = table[j].name;
        if alias_matches(other, path) {
            if other.len() < name.len() {
                assert(path[separator_at(other)] == name[other.len() as int]);
            } else if other.len() == name.len() {
                assert(path.subrange(1, separator_at(name)) =~= name);
            } else {
                assert(other.subrange(0, name.len() as int) =~= name) by {
                    assert forall|k: int| 0 <= k < name.len() implies other[k] == name[k] by {
                        assert(other[k] == path.subrange(1, separator_at(other))[k]);
                    }
                }
                lemma_prefix_precedes(name, other);
                assert(precedes(table[j].name, table[i].name));
                lemma_precedes_antisymmetric(other, name);
            }
        }
    }
}

/// In a sorted table, for an entry `(name, dir)` whose name holds no
/// separator and which is the first of its name, `$name/x` resolves to
/// `dir`, the separator and `x`.
pub proof fn lemma_plain_alias_resolves(
    table: Seq<Alias>,
    i: int,
    separator: char,
    rest: Seq<char>,
)
    requires
        sorted_by_name(table),
        0 <= i < table.len(),
        is_plain_name(table[i].name),
        forall|j: int| 0 <= j < i ==> (#[trigger] table[j]).name != table[i].name,
        is_separator(separator),
        rest.len() > 0,
    ensures
        resolved(alias_path(table[i].name, separator, rest), table) == table[i].directory + seq![
            separator,
        ] + rest,
{
    lemma_plain_name_is_first_match(table, i, separator, rest);
    lemma_alias_resolves(table, i, separator, rest);
}

/// Where the first separator of `path` at or behind `from` stands; the
/// length of the path where there is none.
pub open spec fn token_end(path: Seq<char>, from: int) -> int
    decreases path.len() - from,
{
    if from < 0 || from >= path.len() {
        path.len() as int
    } else if is_separator(path[from]) {
        from
    } else {
        token_end(path, from + 1)
    }
}

/// The leading token of a path that begins with a dollar sign: what stands
/// between the dollar sign and the first separator.
pub open spec fn leading_token(path: Seq<char>) -> Seq<char> {
    path.subrange(1, token_end(path, 1))
}

/// A path that begins with the alias of a name without separator has that
/// name as its leading token.
pub proof fn lemma_plain_alias_is_leading_token(name: Seq<char>, path: Seq<char>)
    requires
        is_plain_name(name),
        alias_matches(name, path),
    ensures
        leading_token(path) == name,
{
    lemma_token_ends_behind_name(name, path, 1);
}

/// Within the name that a path begins with, no token ends.
proof fn lemma_token_ends_behind_name(name: Seq<char>, path: Seq<char>, from: int)
    requires
        is_plain_name(name),
        alias_matches(name, path),
        1 <= from <= separator_at(name),
    ensures
        token_end(path, from) == separator_at(name),
    decreases separator_at(name) - from,
{
    if from < separator_at(name) {
        assert(!is_separator(name[from - 1]));
        lemma_token_ends_behind_name(name, path, from + 1);
    }
}

/// A path that does not begin with a dollar sign resolves to itself.
pub proof fn lemma_path_without_dollar_unchanged(path: Seq<char>, table: Seq<Alias>)
    requires
        path.len() == 0 || path[0] != '$',
    ensures
        resolved(path, table) == path,
{
    lemma_unmatched_path_unchanged(path, table);
}

/// Where no name of the table holds a separator, a path whose leading
/// token is no name of the table resolves to itself.
pub proof fn lemma_unknown_token_unchanged(path: Seq<char>, table: Seq<Alias>)
    requires
        forall|i: int| 0 <= i < table.len() ==> is_plain_name(#[trigger] table[i].name),
        forall|i: int| 0 <= i < table.len() ==> (#[trigger] table[i]).name != leading_token(path),
    ensures
        resolved(path, table) == path,
{
    assert forall|i: int| 0 <= i < table.len() implies !alias_matches(
        #[trigger] table[i].name,
        path,
    ) by {
        if alias_matches(table[i].name, path) {
            lemma_plain_alias_is_leading_token(table[i].name, path);
        }
    }
    lemma_unmatched_path_unchanged(path, table);
}

/// Resolution is one pass: what comes out is the path itself, or its
/// expansion under one entry that it begins with. The rest of the path is
/// taken over as it stands and is not looked at again.
pub proof fn lemma_resolved_in_one_pass(path: Seq<char>, table: Seq<Alias>)
    ensures
        resolved(path, table) == path || exists|i: int|
            0 <= i < table.len() && alias_matches(#[trigger] table[i].name, path) && resolved(
                path,
                table,
            ) == expansion(table[i], path),
    decreases table.len(),
{
    if table.len() > 0 && !alias_matches(table[0].name, path) {
        let rest = table.drop_first();
        lemma_resolved_in_one_pass(path, rest);
        if resolved(path, rest) != path {
            let i = choose|i: int|
                0 <= i < rest.len() && alias_matches(#[trigger] rest[i].name, path) && resolved(
                    path,
                    rest,
                ) == expansion(rest[i], path);
            assert(table[i + 1] == rest[i]);
        }
    }
}

/// A path that is not empty does not resolve to the empty path.
pub proof fn lemma_resolved_nonempty(path: Seq<char>, table: Seq<Alias>)
    requires
        path.len() > 0,
    ensures
        resolved(path, table).len() > 0,
    decreases table.len(),
{
    if table.len() > 0 && !alias_matches(table[0].name, path) {
        lemma_resolved_nonempty(path, table.drop_first());
    }
}

/// Decides whether the path begins with the alias, both given by their
/// characters.
pub fn begins_with_alias(name: &Vec<char>, path: &Vec<char>) -> (fits: bool)
    ensures
        fits == alias_matches(name@, path@),
{
    let n = name.len();
    if path.len() < 3 || n > path.len() - 3 {
        return false;
    }
    if path[0] != '$' {
        return false;
    }
    let mut k: usize = 0;
    while k < n
        invariant
            k <= n,
            n == name.len(),
            n + 3 <= path.len(),
            forall|m: int| 0 <= m < k ==> path@[1 + m] == name@[m],
        decreases n - k,
    {
        if path[1 + k] != name[k] {
            return false;
        }
        k += 1;
    }
    assert(path@.subrange(1, 1 + n) =~= name@);
    path[1 + n] == '/' || path[1 + n] == '\\'
}

/// Resolves `path` against the table.
pub fn resolve(path: &str, index: &AliasIndex) -> (out: String)
    ensures
        out@ == resolved(path@, index@),
{
    let chars = to_chars(path);
    let entries = index.entries();
    let ghost table = index@;
    let mut i: usize = 0;
    assert(table.skip(0) =~= table);
    while i < entries.len()
        invariant
            i <= entries.len(),
            chars@ == path@,
            table == index@,
            table == alias_views(entries@),
            resolved(path@, table) == resolved(path@, table.skip(i as int)),
        decreases entries.len() - i,
    {
        let entry = &entries[i];
        let name = to_chars(entry.name.as_str());
        proof {
            let rest = table.skip(i as int);
            assert(rest.drop_first() =~= table.skip(i + 1));
        }
        if begins_with_alias(&name, &chars) {
            let end = chars.len();
            let tail = path.substring_char(1 + name.len(), end);
            let mut out = entry.directory.clone();
            out.append(tail);
            return out;
        }
        i += 1;
    }
    path.to_owned()
}

/// A resolved request as a mathematical value.
pub struct ResolvedLinkRequestView {
    pub kind: LinkKind,
    pub src: Seq<char>,
    pub dst: Seq<char>,
}

/// A request whose paths have been resolved: what the executor works on.
#[derive(Debug, PartialEq, Eq)]
pub struct ResolvedLinkRequest {
    /// The kind of link asked for.
    pub kind: LinkKind,
    /// The source path, resolved.
    pub src: String,
    /// The destination path, resolved.
    pub dst: String,
}

impl View for ResolvedLinkRequest {
    type V = ResolvedLinkRequestView;

    open spec fn view(&self) -> ResolvedLinkRequestView {
        ResolvedLinkRequestView { kind: self.kind, src: self.src@, dst: self.dst@ }
    }
}

/// What a request becomes when both of its paths are resolved.
pub open spec fn resolved_request(
    request: LinkRequestView,
    table: Seq<Alias>,
) -> ResolvedLinkRequestView {
    ResolvedLinkRequestView {
        kind: request.kind,
        src: resolved(request.raw_src, table),
        dst: resolved(request.raw_dst, table),
    }
}

/// Resolves both paths of a request. Neither comes out empty.
pub fn resolve_request(request: &LinkRequest, index: &AliasIndex) -> (out: ResolvedLinkRequest)
    ensures
        out@ == resolved_request(request@, index@),
        out.src@.len() > 0,
        out.dst@.len() > 0,
{
    let dst = resolve(request.raw_dst().as_str(), index);
    let src = resolve(request.raw_src().as_str(), index);
    proof {
        lemma_resolved_nonempty(request@.raw_src, index@);
        lemma_resolved_nonempty(request@.raw_dst, index@);
    }
    ResolvedLinkRequest { kind: request.kind(), src, dst }
}

} // verus!
