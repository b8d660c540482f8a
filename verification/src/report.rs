//! What a run reports: how many dependencies are invalid, whether that fails
//! the run, and the records as a table.

use vstd::prelude::*;
use vstd::string::*;
use crate::dependency::{RetrievedDependency, RetrievedDependencyView};
use crate::licrc::{LicRc, LicRcView};
use crate::score::{digit, digit_exec};
use crate::text::{chars_of, join, join_exec, string_of};

verus! {

/// The first line of the table.
pub const HEADER: &'static str =
    "| Result | Name |  Version | Type | Validity | Ignored | Licenses | Error | Comments | Is Dev | Is Optional |";

/// The second line of the table.
pub const HEADER_SEPARATOR: &'static str = "|---|---|---|---|---|---|---|---|---|---|---|";

/// The record counts against the run: it is neither valid nor ignored.
pub open spec fn is_invalid(record: RetrievedDependencyView) -> bool {
    !record.is_valid && !record.is_ignored
}

/// How many of the records count against the run.
pub open spec fn invalid_count(records: Seq<RetrievedDependencyView>) -> nat {
    records.filter(|r: RetrievedDependencyView| is_invalid(r)).len()
}

/// The run fails: a record counts against it, and the policy does not say
/// otherwise.
pub open spec fn fails(invalid: nat, policy: LicRcView) -> bool {
    invalid > 0 && !policy.behavior.do_not_block_pr
}

/// How many of the records count against the run.
pub fn invalid_dependencies_count(dependencies: &Vec<RetrievedDependency>) -> (r: usize)
    ensures
        r == invalid_count(dependencies.deep_view()),
{
    let ghost counts = |r: RetrievedDependencyView| is_invalid(r);
    let ghost views = dependencies.deep_view();
    let mut count: usize = 0;
    let mut i: usize = 0;
    proof {
        assert(views.take(0) == Seq::<RetrievedDependencyView>::empty());
        reveal(Seq::filter);
    }
    while i < dependencies.len()
        invariant
            i <= dependencies.len(),
            views == dependencies.deep_view(),
            counts == |r: RetrievedDependencyView| is_invalid(r),
            count == views.take(i as int).filter(counts).len(),
            count <= i,
        decreases dependencies.len() - i,
    {
        proof {
            assert(views.take(i + 1).drop_last() == views.take(i as int));
            assert(views.take(i + 1).last() == dependencies@[i as int]@);
            reveal(Seq::filter);
        }
        if !dependencies[i].is_valid && !dependencies[i].is_ignored {
            count = count + 1;
        }
        i = i + 1;
    }
    assert(views.take(dependencies.len() as int) == views);
    count
}

/// The exit code of the run: one where it fails, zero where it does not.
pub fn exit_code(invalid_dependencies_count: usize, licrc: &LicRc) -> (r: i32)
    ensures
        r == if fails(invalid_dependencies_count as nat, licrc@) {
            1i32
        } else {
            0i32
        },
{
    if invalid_dependencies_count > 0 && !licrc.behavior.do_not_block_pr {
        1
    } else {
        0
    }
}

/// The number in decimal digits.
pub open spec fn decimal(n: nat) -> Seq<char>
    decreases n,
{
    if n < 10 {
        seq![digit(n)]
    } else {
        decimal(n / 10).push(digit(n % 10))
    }
}

/// The mark of a record: green where it is valid, yellow where it is valid
/// with a comment that stays, blue where it is ignored, red where it counts
/// against the run.
pub open spec fn mark(record: RetrievedDependencyView) -> Seq<char> {
    if record.is_valid {
        if record.comment matches Some(comment) && !comment.remove_when_valid {
            ":yellow_circle:"@
        } else {
            ":green_circle:"@
        }
    } else if record.is_ignored {
        ":large_blue_circle:"@
    } else {
        ":red_circle:"@
    }
}

/// The name of a record, as a link where the record has a url.
pub open spec fn linked_name(record: RetrievedDependencyView) -> Seq<char> {
    match record.url {
        Some(url) => "["@ + record.name + "]("@ + url + ")"@,
        None => record.name,
    }
}

/// The comment of a record as the table shows it: a comment that is to be
/// left out once the dependency is valid is left out of a valid record, and
/// of an ignored one.
pub open spec fn shown_comment(record: RetrievedDependencyView) -> Seq<char> {
    match record.comment {
        Some(comment) => if comment.remove_when_valid && (record.is_valid || record.is_ignored) {
            Seq::empty()
        } else {
            comment.text
        },
        None => Seq::empty(),
    }
}

/// What is known of a kind, in a word.
pub open spec fn kind_word(kind: Option<bool>) -> Seq<char> {
    match kind {
        Some(true) => "True"@,
        Some(false) => "False"@,
        None => "-"@,
    }
}

/// The cells of the row of a record.
pub open spec fn cells(record: RetrievedDependencyView) -> Seq<Seq<char>> {
    seq![
        mark(record),
        "**"@ + linked_name(record) + "**"@,
        record.version,
        record.dependency_type,
        if record.is_valid {
            Seq::empty()
        } else {
            "Invalid"@
        },
        if record.is_ignored {
            "Ignored by .licrc"@
        } else {
            Seq::empty()
        },
        match record.licenses {
            Some(licenses) => join(licenses, ", "@),
            None => Seq::empty(),
        },
        match record.error {
            Some(error) => error,
            None => Seq::empty(),
        },
        shown_comment(record),
        kind_word(record.is_dev),
        kind_word(record.is_optional),
    ]
}

/// The row of a record.
pub open spec fn row(record: RetrievedDependencyView) -> Seq<char> {
    "| "@ + join(cells(record), " | "@) + " |"@
}

/// The rows of the records, in their order.
pub open spec fn rows(records: Seq<RetrievedDependencyView>) -> Seq<Seq<char>> {
    Seq::new(records.len(), |i: int| row(records[i]))
}

/// The title of the table.
pub open spec fn title(total: nat, invalid: nat) -> Seq<char> {
    "# Licensebat analysis result ("@ + decimal(total) + " dependencies - "@ + decimal(invalid)
        + " invalid)"@
}

/// The table of the records, in their order, under its title.
pub open spec fn table(records: Seq<RetrievedDependencyView>, invalid: nat) -> Seq<char> {
    title(records.len(), invalid) + "\n"@ + HEADER@ + "\n"@ + HEADER_SEPARATOR@ + "\n"@ + join(
        rows(records),
        "\n"@,
    )
}

/// `a` stands before `b` in the order of texts: at the first place where
/// they differ `a` has the character with the lesser code, or `a` ends
/// there and `b` goes on.
pub open spec fn text_before(a: Seq<char>, b: Seq<char>) -> bool
    decreases a.len(),
{
    if b.len() == 0 {
        false
    } else if a.len() == 0 {
        true
    } else if (a[0] as u32) < (b[0] as u32) {
        true
    } else if (b[0] as u32) < (a[0] as u32) {
        false
    } else {
        text_before(a.skip(1), b.skip(1))
    }
}

/// `a` stands before `b` in the table: invalid records come first, and among
/// records that are alike in this the names decide.
pub open spec fn comes_before(a: RetrievedDependencyView, b: RetrievedDependencyView) -> bool {
    (!a.is_valid && b.is_valid) || (a.is_valid == b.is_valid && text_before(a.name, b.name))
}

/// Where `record` goes among records that are in order: the index, at or
/// after `from`, of the first record that it stands before, or the length.
pub open spec fn place_from(
    records: Seq<RetrievedDependencyView>,
    record: RetrievedDependencyView,
    from: int,
) -> int
    decreases records.len() - from,
{
    if from < 0 || from >= records.len() {
        records.len() as int
    } else if comes_before(record, records[from]) {
        from
    } else {
        place_from(records, record, from + 1)
    }
}

/// The records in the order of the table. Records of which neither stands
/// before the other keep the order that they came in.
pub open spec fn ordered(records: Seq<RetrievedDependencyView>) -> Seq<RetrievedDependencyView>
    decreases records.len(),
{
    if records.len() == 0 {
        records
    } else {
        let before = ordered(records.drop_last());
        before.insert(place_from(before, records.last(), 0), records.last())
    }
}

/// No record stands before one that precedes it.
pub open spec fn in_order(records: Seq<RetrievedDependencyView>) -> bool {
    forall|i: int, j: int|
        0 <= i < j < records.len() ==> !comes_before(#[trigger] records[j], #[trigger] records[i])
}

/// Of two texts at most one stands before the other.
pub proof fn lemma_text_before_is_one_way(a: Seq<char>, b: Seq<char>)
    requires
        text_before(a, b),
    ensures
        !text_before(b, a),
    decreases a.len(),
{
    if a.len() > 0 && b.len() > 0 && (a[0] as u32) == (b[0] as u32) {
        lemma_text_before_is_one_way(a.skip(1), b.skip(1));
    }
}

/// `place_from` gives a place at or after `from`: the records from `from`
/// up to it do not come after the record, and the one at it does.
pub proof fn lemma_place_from(
    records: Seq<RetrievedDependencyView>,
    record: RetrievedDependencyView,
    from: int,
)
    requires
        0 <= from <= records.len(),
    ensures
        from <= place_from(records, record, from) <= records.len(),
        forall|k: int|
            from <= k < place_from(records, record, from) ==> !comes_before(
                record,
                #[trigger] records[k],
            ),
        place_from(records, record, from) < records.len() ==> comes_before(
            record,
            records[place_from(records, record, from)],
        ),
    decreases records.len() - from,
{
    if from < records.len() && !comes_before(record, records[from]) {
        lemma_place_from(records, record, from + 1);
    }
}

/// The records in the order of the table are the same records, each as
/// often as before, and they are in order.
pub proof fn lemma_ordered(records: Seq<RetrievedDependencyView>)
    ensures
        ordered(records).len() == records.len(),
        ordered(records).to_multiset() == records.to_multiset(),
        in_order(ordered(records)),
    decreases records.len(),
{
    if records.len() > 0 {
        let last = records.last();
        let before = ordered(records.drop_last());
        lemma_ordered(records.drop_last());
        lemma_place_from(before, last, 0);
        let at = place_from(before, last, 0);
        let after = ordered(records);
        before.insert_ensures(at, last);
        vstd::seq_lib::to_multiset_insert(before, at, last);
        assert(records.drop_last().push(last) == records);
        vstd::seq_lib::to_multiset_build(records.drop_last(), last);
        assert forall|i: int, j: int| 0 <= i < j < after.len() implies !comes_before(
            #[trigger] after[j],
            #[trigger] after[i],
        ) by {
            if j < at {
                assert(after[i] == before[i] && after[j] == before[j]);
            } else if j == at {
                assert(after[i] == before[i]);
            } else if i < at {
                assert(after[i] == before[i] && after[j] == before[j - 1]);
            } else if i == at {
                assert(after[i] == last && after[j] == before[j - 1]);
                assert(comes_before(last, before[at]));
                if comes_before(before[j - 1], last) {
                    lemma_before_chain(before[j - 1], last, before[at]);
                    if at < j - 1 {
                        assert(!comes_before(before[j - 1], before[at]));
                    } else {
                        if before[at].is_valid == before[at].is_valid {
                            lemma_text_before_is_one_way(before[at].name, before[at].name);
                        }
                    }
                }
            } else {
                assert(after[i] == before[i - 1] && after[j] == before[j - 1]);
            }
        }
    }
}

/// A record that stands before a second, which stands before a third,
/// stands before the third.
pub proof fn lemma_before_chain(
    a: RetrievedDependencyView,
    b: RetrievedDependencyView,
    c: RetrievedDependencyView,
)
    requires
        comes_before(a, b),
        comes_before(b, c),
    ensures
        comes_before(a, c),
{
    if a.is_valid == b.is_valid && b.is_valid == c.is_valid {
        lemma_text_before_chain(a.name, b.name, c.name);
    }
}

/// The same of texts.
pub proof fn lemma_text_before_chain(a: Seq<char>, b: Seq<char>, c: Seq<char>)
    requires
        text_before(a, b),
        text_before(b, c),
    ensures
        text_before(a, c),
    decreases a.len(),
{
    if a.len() > 0 && b.len() > 0 && c.len() > 0 {
        if (a[0] as u32) == (b[0] as u32) && (b[0] as u32) == (c[0] as u32) {
            lemma_text_before_chain(a.skip(1), b.skip(1), c.skip(1));
        }
    }
}

/// The number in decimal digits.
pub fn decimal_text(n: usize) -> (r: String)
    ensures
        r@ == decimal(n as nat),
{
    let mut reversed: Vec<char> = Vec::new();
    let mut rest: usize = n;
    while rest >= 10
        invariant
            decimal(n as nat) == decimal(rest as nat) + reversed@.reverse(),
        decreases rest,
    {
        let ghost before = reversed@;
        reversed.push(digit_exec((rest % 10) as u32));
        assert(reversed@.reverse() == seq![digit((rest % 10) as nat)] + before.reverse());
        assert(decimal(rest as nat) == decimal((rest / 10) as nat).push(digit((rest % 10) as nat)));
        assert(decimal((rest / 10) as nat).push(digit((rest % 10) as nat)) + before.reverse()
            == decimal((rest / 10) as nat) + reversed@.reverse());
        rest = rest / 10;
    }
    let ghost before = reversed@;
    reversed.push(digit_exec(rest as u32));
    assert(reversed@.reverse() == seq![digit(rest as nat)] + before.reverse());
    let mut digits: Vec<char> = Vec::new();
    let mut i: usize = reversed.len();
    while i > 0
        invariant
            i <= reversed.len(),
            digits@ == reversed@.reverse().take(reversed.len() - i),
        decreases i,
    {
        digits.push(reversed[i - 1]);
        i = i - 1;
    }
    assert(reversed@.reverse().take(reversed.len() as int) == reversed@.reverse());
    string_of(&digits)
}

/// The mark of a record.
fn mark_of(dependency: &RetrievedDependency) -> (r: String)
    ensures
        r@ == mark(dependency@),
{
    if dependency.is_valid {
        let stays = match &dependency.comment {
            Some(comment) => !comment.remove_when_valid,
            None => false,
        };
        if stays {
            String::from_str(":yellow_circle:")
        } else {
            String::from_str(":green_circle:")
        }
    } else if dependency.is_ignored {
        String::from_str(":large_blue_circle:")
    } else {
        String::from_str(":red_circle:")
    }
}

/// The name of a record, in bold, as a link where the record has a url.
fn name_of(dependency: &RetrievedDependency) -> (r: String)
    ensures
        r@ == "**"@ + linked_name(dependency@) + "**"@,
{
    let mut name = String::from_str("**");
    match &dependency.url {
        Some(url) => {
            name.append("[");
            name.append(dependency.name.as_str());
            name.append("](");
            name.append(url.as_str());
            name.append(")");
        },
        None => {
            name.append(dependency.name.as_str());
        },
    }
    name.append("**");
    assert(name@ =~= "**"@ + linked_name(dependency@) + "**"@);
    name
}

/// The comment of a record as the table shows it.
fn comment_of(dependency: &RetrievedDependency) -> (r: String)
    ensures
        r@ == shown_comment(dependency@),
{
    match &dependency.comment {
        Some(comment) => if comment.remove_when_valid && (dependency.is_valid
            || dependency.is_ignored) {
            String::new()
        } else {
            comment.text.clone()
        },
        None => String::new(),
    }
}

/// The cells of the row of a record.
fn cells_of(dependency: &RetrievedDependency) -> (r: Vec<String>)
    ensures
        r.deep_view() == cells(dependency@),
{
    let licenses = match &dependency.licenses {
        Some(licenses) => string_of(&join_exec(licenses, &chars_of(", "))),
        None => String::new(),
    };
    let error = match &dependency.error {
        Some(error) => error.clone(),
        None => String::new(),
    };
    let mut r: Vec<String> = Vec::new();
    r.push(mark_of(dependency));
    r.push(name_of(dependency));
    r.push(dependency.version.clone());
    r.push(dependency.dependency_type.clone());
    r.push(if dependency.is_valid {
        String::new()
    } else {
        String::from_str("Invalid")
    });
    r.push(if dependency.is_ignored {
        String::from_str("Ignored by .licrc")
    } else {
        String::new()
    });
    r.push(licenses);
    r.push(error);
    r.push(comment_of(dependency));
    r.push(kind_text(dependency.is_dev));
    r.push(kind_text(dependency.is_optional));
    assert(r.deep_view() =~= cells(dependency@));
    r
}

/// What is known of a kind, in a word.
fn kind_text(kind: Option<bool>) -> (r: String)
    ensures
        r@ == kind_word(kind),
{
    match kind {
        Some(true) => String::from_str("True"),
        Some(false) => String::from_str("False"),
        None => String::from_str("-"),
    }
}

/// The row of a record.
pub fn markdown_row(dependency: &RetrievedDependency) -> (r: String)
    ensures
        r@ == row(dependency@),
{
    let cells = cells_of(dependency);
    let inner = string_of(&join_exec(&cells, &chars_of(" | ")));
    let mut r = String::from_str("| ");
    r.append(inner.as_str());
    r.append(" |");
    r
}

/// The table of the records, in their order, under its title.
pub fn markdown(dependencies: &Vec<RetrievedDependency>, invalid_dependencies_count: usize) -> (r:
    String)
    ensures
        r@ == table(dependencies.deep_view(), invalid_dependencies_count as nat),
{
    let ghost views = dependencies.deep_view();
    let mut lines: Vec<String> = Vec::new();
    let mut i: usize = 0;
    while i < dependencies.len()
        invariant
            i <= dependencies.len(),
            views == dependencies.deep_view(),
            lines.len() == i,
            forall|k: int| 0 <= k < i ==> lines@[k]@ == row(views[k]),
        decreases dependencies.len() - i,
    {
        assert(views[i as int] == dependencies@[i as int]@);
        lines.push(markdown_row(&dependencies[i]));
        i = i + 1;
    }
    assert(lines.deep_view() =~= rows(views));
    let body = string_of(&join_exec(&lines, &chars_of("\n")));
    let mut r = String::from_str("# Licensebat analysis result (");
    r.append(decimal_text(dependencies.len()).as_str());
    r.append(" dependencies - ");
    r.append(decimal_text(invalid_dependencies_count).as_str());
    r.append(" invalid)");
    r.append("\n");
    r.append(HEADER);
    r.append("\n");
    r.append(HEADER_SEPARATOR);
    r.append("\n");
    r.append(body.as_str());
    r
}

/// Whether `a` stands before `b` in the order of texts.
pub fn is_text_before(a: &str, b: &str) -> (r: bool)
    ensures
        r == text_before(a@, b@),
{
    let x = chars_of(a);
    let y = chars_of(b);
    let mut i: usize = 0;
    assert(x@.skip(0) == x@ && y@.skip(0) == y@);
    while i < x.len() && i < y.len()
        invariant
            i <= x.len(),
            i <= y.len(),
            x@ == a@,
            y@ == b@,
            text_before(x@, y@) == text_before(x@.skip(i as int), y@.skip(i as int)),
        decreases x.len() - i,
    {
        assert(x@.skip(i as int)[0] == x@[i as int] && y@.skip(i as int)[0] == y@[i as int]);
        let code_x: u32 = x[i] as u32;
        let code_y: u32 = y[i] as u32;
        if code_x < code_y {
            return true;
        }
        if code_y < code_x {
            return false;
        }
        assert(x@.skip(i as int).skip(1) == x@.skip(i + 1));
        assert(y@.skip(i as int).skip(1) == y@.skip(i + 1));
        i = i + 1;
    }
    i < y.len()
}

/// Whether `a` stands before `b` in the table.
pub fn is_before(a: &RetrievedDependency, b: &RetrievedDependency) -> (r: bool)
    ensures
        r == comes_before(a@, b@),
{
    if a.is_valid != b.is_valid {
        !a.is_valid
    } else {
        is_text_before(a.name.as_str(), b.name.as_str())
    }
}

/// The records in the order of the table: the same records, invalid ones
/// first, by name among those that are alike in this.
pub fn sort_for_report(dependencies: &Vec<RetrievedDependency>) -> (r: Vec<RetrievedDependency>)
    ensures
        r.deep_view() == ordered(dependencies.deep_view()),
        r.len() == dependencies.len(),
        r.deep_view().to_multiset() == dependencies.deep_view().to_multiset(),
        in_order(r.deep_view()),
{
    let ghost views = dependencies.deep_view();
    let mut r: Vec<RetrievedDependency> = Vec::new();
    let mut i: usize = 0;
    assert(views.take(0) == Seq::<RetrievedDependencyView>::empty());
    assert(r.deep_view() == Seq::<RetrievedDependencyView>::empty());
    while i < dependencies.len()
        invariant
            i <= dependencies.len(),
            views == dependencies.deep_view(),
            r.len() == i,
            r.deep_view() == ordered(views.take(i as int)),
        decreases dependencies.len() - i,
    {
        assert(views.take(i + 1).drop_last() == views.take(i as int));
        assert(views.take(i + 1).last() == dependencies@[i as int]@);
        let record = dependencies[i].clone();
        let ghost before = r.deep_view();
        let mut at: usize = 0;
        while at < r.len() && !is_before(&record, &r[at])
            invariant
                at <= r.len(),
                before == r.deep_view(),
                place_from(before, record@, 0) == place_from(before, record@, at as int),
            decreases r.len() - at,
        {
            assert(before[at as int] == r@[at as int]@);
            at = at + 1;
        }
        proof {
            if at < r.len() {
                assert(before[at as int] == r@[at as int]@);
            }
        }
        let ghost view = record@;
        r.insert(at, record);
        assert(r.deep_view() =~= before.insert(at as int, view));
        i = i + 1;
    }
    assert(views.take(dependencies.len() as int) == views);
    proof {
        lemma_ordered(views);
    }
    r
}

} // verus!
