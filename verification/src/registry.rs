//! The registry loader: one directory scan becomes a registry.
//!
//! The surrounding process performs the filesystem work — probing the
//! configuration directory, creating it when absent, enumerating its entries
//! and reading each regular file — and hands the outcome over as a `DirScan`
//! of plain values. The loader then decides everything else: which entries
//! become records, in what order, which are skipped, and which warnings are
//! owed for the skipped ones. Loading is best-effort: only a failure to
//! create the missing directory is an error; an unreadable directory or any
//! number of bad entries degrade to a smaller registry.

use vstd::prelude::*;

use crate::descriptor::DescriptorError;
use crate::descriptor::descriptor_error_matches;
use crate::descriptor::parse_descriptor;
use crate::descriptor::spec_descriptor_record;
use crate::record::ServiceView;
use crate::record::Services;

verus! {

/// What the surrounding process found for one directory entry.
#[derive(Debug)]
pub enum EntryOutcome {
    /// The entry is not a regular file (a subdirectory, a socket, ...).
    NotFile,
    /// The entry is a file that could not be read; `cause` describes why.
    Unreadable { cause: String },
    /// The entry is a file with this full text.
    Text { content: String },
}

/// What the surrounding process found for the configuration directory.
#[derive(Debug)]
pub enum DirScan {
    /// The directory was absent and has been created empty.
    CreatedEmpty,
    /// The directory was absent and could not be created.
    CreateFailed { cause: String },
    /// The directory exists but its entries could not be enumerated.
    OpenFailed { cause: String },
    /// The directory's entries, in enumeration order.
    Entries { entries: Vec<EntryOutcome> },
}

/// One recorded warning about a skipped entry or an unreadable directory.
#[derive(Debug)]
pub enum LoadWarning {
    DirectoryUnreadable { cause: String },
    EntryUnreadable { index: usize, cause: String },
    InvalidDescriptor { index: usize, error: DescriptorError, content: String },
}

/// A loaded registry together with the warnings recorded while loading it.
#[derive(Debug)]
pub struct LoadReport {
    pub services: Services,
    pub warnings: Vec<LoadWarning>,
}

/// The configuration directory path, resolved once at startup: the
/// environment override when one is set, else the fixed default.
pub fn cfg_dir_path(env_override: Option<String>) -> (r: String)
    ensures
        env_override matches Some(p) ==> r@ == p@,
        env_override is None ==> r@ == "./cfg"@,
{
    match env_override {
        Some(p) => p,
        None => "./cfg".to_owned(),
    }
}

/// The record one entry contributes: only a readable file whose text is a
/// valid descriptor contributes one.
pub open spec fn entry_record(e: EntryOutcome) -> Option<ServiceView> {
    match e {
        EntryOutcome::Text { content } => spec_descriptor_record(content@),
        _ => None,
    }
}

/// Whether an entry earns a warning: an unreadable file, or a file whose
/// text is not a valid descriptor. Non-files are skipped silently.
pub open spec fn entry_failed(e: EntryOutcome) -> bool {
    match e {
        EntryOutcome::NotFile => false,
        EntryOutcome::Unreadable { .. } => true,
        EntryOutcome::Text { content } => spec_descriptor_record(content@) is None,
    }
}

/// The records of a whole entry sequence, in enumeration order: every entry
/// that parses contributes exactly one record, every other entry none.
pub open spec fn records_of(entries: Seq<EntryOutcome>) -> Seq<ServiceView>
    decreases entries.len(),
{
    if entries.len() == 0 {
        Seq::<ServiceView>::empty()
    } else {
        records_of(entries.drop_last()) + match entry_record(entries.last()) {
            Some(rec) => seq![rec],
            None => Seq::<ServiceView>::empty(),
        }
    }
}

/// The indices of the entries that earn a warning, in order.
pub open spec fn failed_indices(entries: Seq<EntryOutcome>) -> Seq<int>
    decreases entries.len(),
{
    if entries.len() == 0 {
        Seq::<int>::empty()
    } else {
        failed_indices(entries.drop_last()) + if entry_failed(entries.last()) {
            seq![entries.len() - 1]
        } else {
            Seq::<int>::empty()
        }
    }
}

/// The warning owed for the failed entry at index `i`: it names the index
/// and carries the cause — the read error's text, or the descriptor failure
/// that `descriptor_error_matches` owes the file's text.
pub open spec fn warning_for(entries: Seq<EntryOutcome>, i: int, w: LoadWarning) -> bool {
    match (entries[i], w) {
        (
            EntryOutcome::Unreadable { cause },
            LoadWarning::EntryUnreadable { index, cause: c },
        ) => index == i && c@ == cause@,
        (
            EntryOutcome::Text { content },
            LoadWarning::InvalidDescriptor { index, error, content: c },
        ) => index == i && descriptor_error_matches(content@, error) && c@ == content@,
        _ => false,
    }
}

/// Whether `w` reports the whole directory as unreadable, for this cause.
pub open spec fn directory_warning(w: LoadWarning, cause: Seq<char>) -> bool {
    match w {
        LoadWarning::DirectoryUnreadable { cause: c } => c@ == cause,
        _ => false,
    }
}

/// The recorded warnings are exactly one per failed entry, in entry order.
pub open spec fn warnings_correspond(entries: Seq<EntryOutcome>, ws: Seq<LoadWarning>) -> bool {
    &&& ws.len() == failed_indices(entries).len()
    &&& forall|k: int|
        0 <= k < ws.len() ==> #[trigger] warning_for(entries, failed_indices(entries)[k], ws[k])
}

/// The recorded warnings correspond to the failed entries among the first
/// `upto` ones.
pub open spec fn prefix_warnings_correspond(
    entries: Seq<EntryOutcome>,
    upto: int,
    ws: Seq<LoadWarning>,
) -> bool {
    &&& ws.len() == failed_indices(entries.take(upto)).len()
    &&& forall|k: int|
        0 <= k < ws.len() ==> #[trigger] warning_for(
            entries,
            failed_indices(entries.take(upto))[k],
            ws[k],
        )
}

proof fn lemma_failed_indices_snoc(entries: Seq<EntryOutcome>, i: int)
    requires
        0 <= i < entries.len(),
    ensures
        entry_failed(entries[i]) ==> failed_indices(entries.take(i + 1)) == failed_indices(
            entries.take(i),
        ).push(i),
        !entry_failed(entries[i]) ==> failed_indices(entries.take(i + 1)) == failed_indices(
            entries.take(i),
        ),
{
    assert(entries.take(i + 1).drop_last() =~= entries.take(i));
    assert(entries.take(i + 1).last() == entries[i]);
    if entry_failed(entries[i]) {
        assert(failed_indices(entries.take(i + 1)) =~= failed_indices(entries.take(i)).push(i));
    } else {
        assert(failed_indices(entries.take(i + 1)) =~= failed_indices(entries.take(i)));
    }
}

proof fn lemma_warning_step(
    entries: Seq<EntryOutcome>,
    i: int,
    old_ws: Seq<LoadWarning>,
    new_ws: Seq<LoadWarning>,
)
    requires
        0 <= i < entries.len(),
        prefix_warnings_correspond(entries, i, old_ws),
        entry_failed(entries[i]) ==> new_ws.len() == old_ws.len() + 1 && new_ws.take(
            old_ws.len() as int,
        ) == old_ws && warning_for(entries, i, new_ws.last()),
        !entry_failed(entries[i]) ==> new_ws == old_ws,
    ensures
        prefix_warnings_correspond(entries, i + 1, new_ws),
{
    lemma_failed_indices_snoc(entries, i);
    let prev = failed_indices(entries.take(i));
    let next = failed_indices(entries.take(i + 1));
    assert forall|k: int| 0 <= k < new_ws.len() implies #[trigger] warning_for(
        entries,
        next[k],
        new_ws[k],
    ) by {
        if k < old_ws.len() {
            assert(new_ws[k] == old_ws[k]);
            assert(next[k] == prev[k]);
            assert(warning_for(entries, prev[k], old_ws[k]));
        } else {
            assert(next[k] == i);
            assert(new_ws[k] == new_ws.last());
        }
    }
}

/// Warnings that correspond to every prefix-failed entry of the whole
/// sequence correspond to the whole sequence.
proof fn lemma_prefix_correspond_full(entries: Seq<EntryOutcome>, ws: Seq<LoadWarning>)
    requires
        prefix_warnings_correspond(entries, entries.len() as int, ws),
    ensures
        warnings_correspond(entries, ws),
{
    assert(entries.take(entries.len() as int) =~= entries);
    assert forall|k: int| 0 <= k < ws.len() implies #[trigger] warning_for(
        entries,
        failed_indices(entries)[k],
        ws[k],
    ) by {
        assert(warning_for(entries, failed_indices(entries.take(entries.len() as int))[k], ws[k]));
    }
}

/// Law: a directory whose entries all carry valid descriptors loads to
/// exactly one record per entry, in enumeration order, each showing that
/// entry's fields, and earns no warning.
pub proof fn lemma_load_all_valid(entries: Seq<EntryOutcome>)
    requires
        forall|i: int| 0 <= i < entries.len() ==> #[trigger] entry_record(entries[i]) is Some,
    ensures
        records_of(entries).len() == entries.len(),
        forall|i: int|
            0 <= i < entries.len() ==> #[trigger] records_of(entries)[i] == entry_record(
                entries[i],
            )->Some_0,
        failed_indices(entries).len() == 0,
    decreases entries.len(),
{
    if entries.len() == 0 {
    } else {
        let prefix = entries.drop_last();
        assert forall|i: int| 0 <= i < prefix.len() implies #[trigger] entry_record(
            prefix[i],
        ) is Some by {
            assert(entry_record(entries[i]) is Some);
        }
        lemma_load_all_valid(prefix);
        assert(entry_record(entries.last()) is Some);
        assert(records_of(entries) == records_of(prefix) + seq![
            entry_record(entries.last())->Some_0,
        ]);
        assert forall|i: int| 0 <= i < entries.len() implies #[trigger] records_of(entries)[i]
            == entry_record(entries[i])->Some_0 by {
            if i < entries.len() - 1 {
                assert(records_of(entries)[i] == records_of(prefix)[i]);
                assert(entry_record(prefix[i]) is Some);
            } else {
                assert(records_of(entries)[i] == entry_record(entries.last())->Some_0);
            }
        }
    }
}

/// Law: one entry made invalid among otherwise valid entries loads to
/// exactly one record per other entry — those before it at their own
/// position, those after it shifted down by one, all unaffected — and earns
/// exactly one warning slot, for the invalid entry.
pub proof fn lemma_load_single_invalid(entries: Seq<EntryOutcome>, j: int)
    requires
        0 <= j < entries.len(),
        entry_record(entries[j]) is None,
        entry_failed(entries[j]),
        forall|i: int|
            0 <= i < entries.len() && i != j ==> #[trigger] entry_record(entries[i]) is Some,
    ensures
        records_of(entries).len() == entries.len() - 1,
        forall|i: int|
            0 <= i < j ==> #[trigger] records_of(entries)[i] == entry_record(entries[i])->Some_0,
        forall|i: int|
            j < i < entries.len() ==> #[trigger] records_of(entries)[i - 1] == entry_record(
                entries[i],
            )->Some_0,
        failed_indices(entries) == seq![j],
    decreases entries.len(),
{
    let prefix = entries.drop_last();
    let n = entries.len() as int;
    if j == n - 1 {
        assert forall|i: int| 0 <= i < prefix.len() implies #[trigger] entry_record(
            prefix[i],
        ) is Some by {
            assert(entry_record(entries[i]) is Some);
        }
        lemma_load_all_valid(prefix);
        assert(records_of(entries) =~= records_of(prefix));
        assert forall|i: int| 0 <= i < j implies #[trigger] records_of(entries)[i] == entry_record(
            entries[i],
        )->Some_0 by {
            assert(records_of(prefix)[i] == entry_record(prefix[i])->Some_0);
        }
        assert(failed_indices(entries) =~= seq![j]);
    } else {
        assert forall|i: int| 0 <= i < prefix.len() && i != j implies #[trigger] entry_record(
            prefix[i],
        ) is Some by {
            assert(entry_record(entries[i]) is Some);
        }
        lemma_load_single_invalid(prefix, j);
        assert(entry_record(entries.last()) is Some);
        assert(records_of(entries) == records_of(prefix) + seq![
            entry_record(entries.last())->Some_0,
        ]);
        assert forall|i: int| 0 <= i < j implies #[trigger] records_of(entries)[i] == entry_record(
            entries[i],
        )->Some_0 by {
            assert(records_of(entries)[i] == records_of(prefix)[i]);
            assert(records_of(prefix)[i] == entry_record(prefix[i])->Some_0);
        }
        assert forall|i: int| j < i < entries.len() implies #[trigger] records_of(entries)[i - 1]
            == entry_record(entries[i])->Some_0 by {
            if i < n - 1 {
                assert(records_of(entries)[i - 1] == records_of(prefix)[i - 1]);
                assert(records_of(prefix)[i - 1] == entry_record(prefix[i])->Some_0);
            } else {
                assert(records_of(entries)[i - 1] == entry_record(entries.last())->Some_0);
            }
        }
        assert(failed_indices(entries) =~= seq![j]);
    }
}

/// Builds the registry for one page load out of a directory scan.
///
/// Only a directory that was absent and could not be created is an error,
/// reported as a message naming the cause. Everything else degrades: a
/// freshly created or unreadable directory yields an empty registry, a bad
/// entry is skipped with a warning, and every entry that parses contributes
/// exactly one record, in enumeration order.
pub fn load_registry(scan: DirScan) -> (r: Result<LoadReport, String>)
    ensures
        r is Err <==> scan matches DirScan::CreateFailed { .. },
        scan matches DirScan::CreateFailed { cause } ==> r is Err && r->Err_0@
            == "Error creating cfg dir: "@ + cause@,
        scan matches DirScan::CreatedEmpty ==> ({
            &&& r is Ok
            &&& r->Ok_0.services@ == Seq::<ServiceView>::empty()
            &&& r->Ok_0.warnings@ == Seq::<LoadWarning>::empty()
        }),
        scan matches DirScan::OpenFailed { cause } ==> ({
            &&& r is Ok
            &&& r->Ok_0.services@ == Seq::<ServiceView>::empty()
            &&& r->Ok_0.warnings@.len() == 1
            &&& directory_warning(r->Ok_0.warnings@[0], cause@)
        }),
        scan matches DirScan::Entries { entries } ==> ({
            &&& r is Ok
            &&& r->Ok_0.services@ == records_of(entries@)
            &&& warnings_correspond(entries@, r->Ok_0.warnings@)
        }),
{
    match scan {
        DirScan::CreateFailed { cause } => {
            let mut m = String::new();
            m.append("Error creating cfg dir: ");
            m.append(cause.as_str());
            Err(m)
        },
        DirScan::CreatedEmpty => {
            let rep = LoadReport { services: Services::new(), warnings: Vec::new() };
            proof {
                assert(rep.warnings@ =~= Seq::<LoadWarning>::empty());
            }
            Ok(rep)
        },
        DirScan::OpenFailed { cause } => {
            let mut warnings: Vec<LoadWarning> = Vec::new();
            warnings.push(LoadWarning::DirectoryUnreadable { cause });
            Ok(LoadReport { services: Services::new(), warnings })
        },
        DirScan::Entries { entries } => {
            let mut services = Services::new();
            let mut warnings: Vec<LoadWarning> = Vec::new();
            let n = entries.len();
            proof {
                assert(entries@.take(0) =~= Seq::<EntryOutcome>::empty());
                assert(warnings@ =~= Seq::<LoadWarning>::empty());
            }
            for i in 0..n
                invariant
                    n == entries.len(),
                    services@ == records_of(entries@.take(i as int)),
                    prefix_warnings_correspond(entries@, i as int, warnings@),
            {
                let ghost prefix = entries@.take(i as int);
                let ghost next = entries@.take(i + 1);
                let ghost old_ws = warnings@;
                proof {
                    assert(next.drop_last() =~= prefix);
                    assert(next.last() == entries@[i as int]);
                }
                match &entries[i] {
                    EntryOutcome::NotFile => {},
                    EntryOutcome::Unreadable { cause } => {
                        warnings.push(
                            LoadWarning::EntryUnreadable { index: i, cause: cause.clone() },
                        );
                        proof {
                            assert(warning_for(entries@, i as int, warnings@.last()));
                        }
                    },
                    EntryOutcome::Text { content } => {
                        match parse_descriptor(content.as_str()) {
                            Ok(s) => {
                                services.push(s);
                            },
                            Err(error) => {
                                warnings.push(
                                    LoadWarning::InvalidDescriptor {
                                        index: i,
                                        error,
                                        content: content.clone(),
                                    },
                                );
                                proof {
                                    assert(warning_for(entries@, i as int, warnings@.last()));
                                }
                            },
                        }
                    },
                }
                proof {
                    if entry_failed(entries@[i as int]) {
                        assert(warnings@.take(old_ws.len() as int) =~= old_ws);
                    }
                    lemma_warning_step(entries@, i as int, old_ws, warnings@);
                }
            }
            proof {
                assert(entries@.take(n as int) =~= entries@);
                lemma_prefix_correspond_full(entries@, warnings@);
            }
            Ok(LoadReport { services, warnings })
        },
    }
}

} // verus!
