//! What holds of every extraction, whatever the path and whatever the
//! caller reports.

use crate::entry::EntryView;
use crate::extract::{
    advanced, failure, pdf_outcome, started, task_of, text_entry, text_outcome, webloc_outcome,
    webloc_title, ErrorView, ExtractionView, Failure, ReportView, TaskView,
};
use crate::kind::{kind_of, FileKind};
use crate::path::{
    extension_of, file_name_of, last_index_of, lemma_last_index_of,
    lemma_name_is_stem_dot_extension, lemma_stem_not_empty, names_file, stem_of,
};
use vstd::prelude::*;

verus! {

/// The extraction after the reports `reports`, in order.
pub open spec fn run(x: ExtractionView, reports: Seq<ReportView>) -> ExtractionView
    decreases reports.len(),
{
    if reports.len() == 0 {
        x
    } else {
        run(advanced(x, reports[0]), reports.drop_first())
    }
}

/// The tasks that the extraction asks for while `reports` come in, in order:
/// one before each report, as long as it is not finished.
pub open spec fn issued(x: ExtractionView, reports: Seq<ReportView>) -> Seq<TaskView>
    decreases reports.len(),
{
    if reports.len() == 0 || x is Finished {
        Seq::empty()
    } else {
        seq![task_of(x)] + issued(advanced(x, reports[0]), reports.drop_first())
    }
}

/// An extraction that is finished with nothing to index.
pub open spec fn nothing() -> ExtractionView {
    ExtractionView::Finished { outcome: Ok(None) }
}

/// An extraction that is finished with `entry`.
pub open spec fn indexed(entry: EntryView) -> ExtractionView {
    ExtractionView::Finished { outcome: Ok(Some(entry)) }
}

/// An extraction that is finished with the failure `e`.
pub open spec fn skipped(e: ErrorView) -> ExtractionView {
    ExtractionView::Finished { outcome: Err(e) }
}

/// A finished extraction stays as it is, whatever is reported to it, and
/// asks for nothing more.
pub proof fn lemma_finished_stays(x: ExtractionView, reports: Seq<ReportView>)
    requires
        x is Finished,
    ensures
        run(x, reports) == x,
        issued(x, reports) == Seq::<TaskView>::empty(),
    decreases reports.len(),
{
    if reports.len() > 0 {
        lemma_finished_stays(x, reports.drop_first());
    }
}

/// A path whose extension stands for a kind of its own names a file.
pub proof fn lemma_known_kinds_name_files(path: Seq<char>)
    requires
        kind_of(path) == FileKind::PlainText || kind_of(path) == FileKind::PortableDocument
            || kind_of(path) == FileKind::WebLocation,
    ensures
        names_file(path),
{
    reveal_strlit("pdf");
    reveal_strlit("txt");
    reveal_strlit("markdown");
    reveal_strlit("md");
    reveal_strlit("webloc");
    let name = file_name_of(path);
    let dot = last_index_of(name, '.');
    lemma_last_index_of(name, '.');
    assert(name.skip(dot + 1).len() >= 2);
    assert(seq!['.', '.'].len() == 2);
}

/// A file whose extension is none of `pdf`, `txt`, `markdown`, `md` and
/// `webloc` yields no entry: its extraction is finished as it starts, with
/// nothing to index, asks for no task, and no report changes that. This
/// holds of the empty extension of a name that ends in a dot, too.
pub proof fn lemma_other_extensions_yield_nothing(path: Seq<char>, reports: Seq<ReportView>)
    requires
        extension_of(path) matches Some(ext) && ext != "pdf"@ && ext != "txt"@ && ext
            != "markdown"@ && ext != "md"@ && ext != "webloc"@,
    ensures
        kind_of(path) == FileKind::Opaque,
        run(started(path), reports) == nothing(),
        issued(started(path), reports) == Seq::<TaskView>::empty(),
{
    lemma_finished_stays(started(path), reports);
}

/// A file without extension is indexed by its name alone: titled by its
/// stem and archived at its path, with no task asked for. A dot in the name
/// of a directory above it changes nothing.
pub proof fn lemma_bare_file_is_indexed_by_name(path: Seq<char>)
    requires
        extension_of(path) is None,
        names_file(path),
    ensures
        started(path) == indexed(
            EntryView { title: stem_of(path), body: None, loc: None, archive_loc: Some(path) },
        ),
{
}

/// A text file is read, and then finished: with its contents as the body if
/// they could be read, as unreadable if not.
pub proof fn lemma_text_file_is_read(path: Seq<char>, report: ReportView)
    requires
        kind_of(path) == FileKind::PlainText,
    ensures
        task_of(started(path)) == (TaskView::Read { path }),
        report matches ReportView::Text(text) ==> advanced(started(path), report) == indexed(
            EntryView {
                title: stem_of(path),
                body: Some(text),
                loc: None,
                archive_loc: Some(path),
            },
        ),
        !(report is Text) ==> advanced(started(path), report) == skipped(
            failure(Failure::Unreadable, report),
        ),
{
    lemma_known_kinds_name_files(path);
}

/// A web location is parsed, and then finished. It is titled by its name;
/// one without a name is titled by its stem, which is its file name without
/// the extension. Its location is the URL, and it has no body.
pub proof fn lemma_webloc_title(path: Seq<char>, name: Option<Seq<char>>, url: Seq<char>)
    requires
        kind_of(path) == FileKind::WebLocation,
    ensures
        task_of(started(path)) == (TaskView::Parse { path }),
        advanced(started(path), ReportView::Webloc { name, url }) == indexed(
            EntryView {
                title: webloc_title(stem_of(path), name),
                body: None,
                loc: Some(url),
                archive_loc: None,
            },
        ),
        name matches Some(n) ==> n.len() > 0 ==> webloc_title(stem_of(path), name) == n,
        name is None ==> webloc_title(stem_of(path), name) == stem_of(path),
        last_index_of(file_name_of(path), '.') > 0 ==> file_name_of(path) == stem_of(path)
            + ".webloc"@,
{
    lemma_known_kinds_name_files(path);
    if last_index_of(file_name_of(path), '.') > 0 {
        lemma_name_is_stem_dot_extension(path);
        reveal_strlit("pdf");
        reveal_strlit("txt");
        reveal_strlit("markdown");
        reveal_strlit("md");
        reveal_strlit("webloc");
        reveal_strlit(".webloc");
        assert(seq!['.'] + "webloc"@ =~= ".webloc"@);
        assert(stem_of(path) + seq!['.'] + "webloc"@ =~= stem_of(path) + (seq!['.'] + "webloc"@));
    }
}

/// Every extraction is finished after three reports at the latest.
pub proof fn lemma_finished_after_three(path: Seq<char>, reports: Seq<ReportView>)
    requires
        reports.len() >= 3,
    ensures
        run(started(path), reports) is Finished,
{
    let first = advanced(started(path), reports[0]);
    let rest = reports.drop_first();
    let second = advanced(first, rest[0]);
    let rest2 = rest.drop_first();
    let third = advanced(second, rest2[0]);
    assert(run(second, rest2) == run(third, rest2.drop_first()));
    assert(run(first, rest) == run(second, rest2));
    assert(run(started(path), reports) == run(first, rest));
    lemma_finished_stays(third, rest2.drop_first());
}

/// The scratch file of a PDF is cleaned up on every way to the end: an
/// extraction that is finished began by asking for the conversion, and the
/// last thing it asked for was to remove the scratch file that the
/// conversion wrote to. This holds whatever was reported: whether the
/// converter ran or not, and whether its output could be read or not.
pub proof fn lemma_scratch_removed_before_finish(path: Seq<char>, reports: Seq<ReportView>)
    requires
        kind_of(path) == FileKind::PortableDocument,
        run(started(path), reports) is Finished,
    ensures
        issued(started(path), reports).len() >= 2,
        issued(started(path), reports).first() == (TaskView::Convert {
            input: path,
            scratch: stem_of(path),
        }),
        issued(started(path), reports).last() == (TaskView::RemoveScratch {
            scratch: stem_of(path),
        }),
{
    lemma_known_kinds_name_files(path);
    let start = started(path);
    assert(start is Converting);
    assert(reports.len() >= 1);
    let first = advanced(start, reports[0]);
    let rest = reports.drop_first();
    assert(run(start, reports) == run(first, rest));
    assert(rest.len() >= 1);
    let second = advanced(first, rest[0]);
    let rest2 = rest.drop_first();
    assert(run(first, rest) == run(second, rest2));
    if first is Removing {
        lemma_finished_stays(second, rest2);
        assert(issued(first, rest) =~= seq![task_of(first)]);
        assert(issued(start, reports) =~= seq![task_of(start), task_of(first)]);
    } else {
        assert(rest2.len() >= 1);
        let third = advanced(second, rest2[0]);
        lemma_finished_stays(third, rest2.drop_first());
        assert(issued(second, rest2) =~= seq![task_of(second)]);
        assert(issued(first, rest) =~= seq![task_of(first), task_of(second)]);
        assert(issued(start, reports) =~= seq![task_of(start), task_of(first), task_of(second)]);
    }
}

/// If nothing fails, a PDF comes to an entry that holds the extracted text,
/// is titled by the stem and archived at the path.
pub proof fn lemma_pdf_entry(path: Seq<char>, text: Seq<char>)
    requires
        kind_of(path) == FileKind::PortableDocument,
    ensures
        run(started(path), seq![ReportView::Done, ReportView::Text(text), ReportView::Done])
            == indexed(
            EntryView {
                title: stem_of(path),
                body: Some(text),
                loc: None,
                archive_loc: Some(path),
            },
        ),
{
    lemma_known_kinds_name_files(path);
    let reports = seq![ReportView::Done, ReportView::Text(text), ReportView::Done];
    let first = advanced(started(path), reports[0]);
    let rest = reports.drop_first();
    let second = advanced(first, rest[0]);
    let rest2 = rest.drop_first();
    let third = advanced(second, rest2[0]);
    assert(run(third, rest2.drop_first()) == third);
    assert(run(second, rest2) == third);
    assert(run(first, rest) == third);
}

/// What an extraction comes to is what the handler of its kind says: that
/// of a text file once it was read, that of a web location once it was
/// parsed, and that of a PDF once its scratch file was removed, which is
/// asked for right after the conversion if that failed, and after the
/// reading if it did not.
pub proof fn lemma_extraction_comes_to_what_is_handled(
    path: Seq<char>,
    first: ReportView,
    second: ReportView,
    third: ReportView,
)
    ensures
        kind_of(path) == FileKind::PlainText ==> advanced(started(path), first)
            == (ExtractionView::Finished { outcome: text_outcome(path, first) }),
        kind_of(path) == FileKind::WebLocation ==> advanced(started(path), first)
            == (ExtractionView::Finished { outcome: webloc_outcome(path, first) }),
        kind_of(path) == FileKind::PortableDocument && first is Done ==> run(
            started(path),
            seq![first, second, third],
        ) == (ExtractionView::Finished { outcome: pdf_outcome(path, first, second, third) }),
        kind_of(path) == FileKind::PortableDocument && !(first is Done) ==> run(
            started(path),
            seq![first, third],
        ) == (ExtractionView::Finished { outcome: pdf_outcome(path, first, second, third) }),
{
    if kind_of(path) == FileKind::PlainText || kind_of(path) == FileKind::WebLocation {
        lemma_known_kinds_name_files(path);
    }
    if kind_of(path) == FileKind::PortableDocument {
        lemma_known_kinds_name_files(path);
        let start = started(path);
        let one = advanced(start, first);
        if first is Done {
            let reports = seq![first, second, third];
            let rest = reports.drop_first();
            let two = advanced(one, rest[0]);
            let rest2 = rest.drop_first();
            let three = advanced(two, rest2[0]);
            assert(run(three, rest2.drop_first()) == three);
            assert(run(two, rest2) == three);
            assert(run(one, rest) == three);
        } else {
            let reports = seq![first, third];
            let rest = reports.drop_first();
            let two = advanced(one, rest[0]);
            assert(run(two, rest.drop_first()) == two);
            assert(run(one, rest) == two);
        }
    }
}

/// A PDF comes to an entry only if the converter succeeded, its output was
/// read and the scratch file was removed; the entry then holds the text.
/// Whatever else was reported, it comes to a failure: that of the
/// conversion, else that of the reading, else that of the removal.
pub proof fn lemma_pdf_fails_unless_all_went_well(
    path: Seq<char>,
    converted: ReportView,
    read: ReportView,
    removed: ReportView,
)
    requires
        names_file(path),
    ensures
        pdf_outcome(path, converted, read, removed) is Ok <==> converted is Done && read is Text
            && removed is Done,
        pdf_outcome(path, converted, read, removed) is Ok ==> pdf_outcome(
            path,
            converted,
            read,
            removed,
        ) == Ok::<Option<EntryView>, ErrorView>(
            Some(text_entry(path, stem_of(path), read->Text_0)),
        ),
        !(converted is Done) ==> pdf_outcome(path, converted, read, removed) == Err::<
            Option<EntryView>,
            ErrorView,
        >(failure(Failure::ConversionFailed, converted)),
        converted is Done && !(read is Text) ==> pdf_outcome(path, converted, read, removed)
            == Err::<Option<EntryView>, ErrorView>(failure(Failure::Unreadable, read)),
        converted is Done && read is Text && !(removed is Done) ==> pdf_outcome(
            path,
            converted,
            read,
            removed,
        ) == Err::<Option<EntryView>, ErrorView>(failure(Failure::CleanupFailed, removed)),
{
}

/// Every entry that a handler comes to has a title.
pub proof fn lemma_handled_entries_are_titled(
    path: Seq<char>,
    first: ReportView,
    second: ReportView,
    third: ReportView,
)
    ensures
        text_outcome(path, first) matches Ok(Some(entry)) ==> entry.title.len() > 0,
        webloc_outcome(path, first) matches Ok(Some(entry)) ==> entry.title.len() > 0,
        pdf_outcome(path, first, second, third) matches Ok(Some(entry)) ==> entry.title.len() > 0,
{
    if names_file(path) {
        lemma_stem_not_empty(path);
    }
}

/// The outcome that an extraction holds or is about to hold, if any.
spec fn held(x: ExtractionView) -> Option<EntryView> {
    match x {
        ExtractionView::Removing { then: Ok(Some(entry)), .. } => Some(entry),
        ExtractionView::Finished { outcome: Ok(Some(entry)) } => Some(entry),
        _ => None,
    }
}

/// The stem that an unfinished extraction goes by, if any.
spec fn stem_in_use(x: ExtractionView) -> Option<Seq<char>> {
    match x {
        ExtractionView::Reading { stem, .. } => Some(stem),
        ExtractionView::Parsing { stem, .. } => Some(stem),
        ExtractionView::Converting { stem, .. } => Some(stem),
        ExtractionView::ReadingScratch { stem, .. } => Some(stem),
        _ => None,
    }
}

/// What an extraction can be relied on for at every moment: the stem it
/// goes by is not empty, and the entry it holds, if any, has a title.
spec fn sound(x: ExtractionView) -> bool {
    &&& stem_in_use(x) matches Some(stem) ==> stem.len() > 0
    &&& held(x) matches Some(entry) ==> entry.well_formed()
}

/// Reports keep an extraction sound.
proof fn lemma_run_sound(x: ExtractionView, reports: Seq<ReportView>)
    requires
        sound(x),
    ensures
        sound(run(x, reports)),
    decreases reports.len(),
{
    if reports.len() > 0 {
        lemma_run_sound(advanced(x, reports[0]), reports.drop_first());
    }
}

/// Every entry that an extraction comes to has a title, whatever the path
/// and whatever was reported.
pub proof fn lemma_entries_are_titled(path: Seq<char>, reports: Seq<ReportView>)
    ensures
        run(started(path), reports) matches ExtractionView::Finished { outcome: Ok(Some(entry)) }
            ==> entry.title.len() > 0,
{
    if kind_of(path) != FileKind::Opaque && names_file(path) {
        lemma_stem_not_empty(path);
    }
    lemma_run_sound(started(path), reports);
}

} // verus!
