//! Which files of a directory are stored on a chain, in what order, and under what names.
//!
//! A file is known here by the bytes of its name, without the directory that it lies in.
use crate::error::{outcome, protocol, ErrorView, ProcessError};
use crate::message::bytes_view;
use crate::text::{is_suffix, read_utf8, stripped, without_suffix};
use vstd::prelude::*;
use vstd::utf8::{decode_utf8, valid_utf8};

verus! {

/// Whether the last dot of the file name stands at `place`.
pub open spec fn is_last_dot(file: Seq<u8>, place: int) -> bool {
    &&& 0 <= place < file.len()
    &&& file[place] == 0x2E
    &&& forall|i: int| place < i < file.len() ==> (#[trigger] file[i]) != 0x2E
}

/// The file name without its extension. A name that begins with its only dot has none.
pub open spec fn stem(file: Seq<u8>) -> Seq<u8> {
    if exists|place: int| is_last_dot(file, place) && place > 0 {
        file.take(choose|place: int| is_last_dot(file, place) && place > 0)
    } else {
        file
    }
}

/// Whether the file name has the extension `wasm`.
pub open spec fn is_wasm(file: Seq<u8>) -> bool {
    file.len() > 5 && file.skip(file.len() - 5) == seq![0x2Eu8, 0x77, 0x61, 0x73, 0x6D]
}

/// Whether the bytes are a path component that names no file.
pub open spec fn names_no_file(file: Seq<u8>) -> bool {
    file.len() == 0 || file == seq![0x2Eu8] || file == seq![0x2Eu8, 0x2E]
}

/// The name under which the file is stored: its stem, without the mark of the architecture that it
/// was built on. Only that mark is removed, and only once, so that the name of a variant is kept.
pub open spec fn stored_name(file: Seq<u8>, arch: Seq<char>) -> Result<Seq<char>, ErrorView> {
    if names_no_file(file) || !valid_utf8(stem(file)) {
        Err(ErrorView::Protocol("invalid Wasm filename"@))
    } else {
        Ok(stripped(decode_utf8(stem(file)), "-"@ + arch))
    }
}

/// Where the last dot stands, if there is one behind the first byte.
fn find_dot(file: &[u8]) -> (place: Option<usize>)
    ensures
        match place {
            Some(place) => is_last_dot(file@, place as int) && place > 0,
            None => forall|place: int| is_last_dot(file@, place) ==> place == 0,
        },
{
    let mut i: usize = file.len();
    while i > 1
        invariant
            i <= file@.len(),
            forall|j: int| i <= j < file@.len() ==> (#[trigger] file@[j]) != 0x2E,
        decreases i,
    {
        if file[i - 1] == 0x2E {
            return Some(i - 1);
        }
        i = i - 1;
    }
    None
}

/// The name under which the file is stored on a chain.
pub fn artifact_name(file: &[u8], arch: &str) -> (result: Result<String, ProcessError>)
    ensures
        outcome(result) == stored_name(file@, arch@),
{
    let length: usize = file.len();
    if length == 0 || (length == 1 && file[0] == 0x2E) || (length == 2 && file[0] == 0x2E && file[1]
        == 0x2E) {
        assert(length == 1 ==> file@ =~= seq![0x2Eu8]);
        assert(length == 2 ==> file@ =~= seq![0x2Eu8, 0x2E]);
        return Err(protocol("invalid Wasm filename"));
    }
    let end: usize = match find_dot(file) {
        Some(place) => place,
        None => length,
    };
    proof {
        if exists|place: int| is_last_dot(file@, place) && place > 0 {
            let place = choose|place: int| is_last_dot(file@, place) && place > 0;
            assert(place == end);
        } else {
            assert(file@.take(length as int) =~= file@);
        }
    }
    let name = vstd::slice::slice_subrange(file, 0, end);
    assert(name@ =~= stem(file@));
    match read_utf8(name) {
        Some(text) => Ok(without_suffix(&text, &"-".to_owned().concat(arch))),
        None => Err(protocol("invalid Wasm filename")),
    }
}

/// Whether the file name has the extension `wasm`.
pub fn has_wasm_extension(file: &[u8]) -> (has: bool)
    ensures
        has == is_wasm(file@),
{
    let length: usize = file.len();
    if length <= 5 {
        return false;
    }
    let tail = vstd::slice::slice_subrange(file, length - 5, length);
    assert(tail@ =~= file@.skip(length - 5));
    let has: bool = tail[0] == 0x2E && tail[1] == 0x77 && tail[2] == 0x61 && tail[3] == 0x73
        && tail[4] == 0x6D;
    assert(has ==> tail@ =~= seq![0x2Eu8, 0x77, 0x61, 0x73, 0x6D]);
    has
}

/// Whether `left` comes before `right`, or is equal to it, from the byte at `place` on: at the
/// first byte in which they differ it has the smaller one, or it ends first.
pub open spec fn at_most_from(left: Seq<u8>, right: Seq<u8>, place: int) -> bool
    decreases left.len() - place,
{
    if place >= left.len() {
        true
    } else if place >= right.len() {
        false
    } else if left[place] != right[place] {
        left[place] < right[place]
    } else {
        at_most_from(left, right, place + 1)
    }
}

/// Whether `left` comes before `right`, or is equal to it, in the order of their bytes.
pub open spec fn at_most(left: Seq<u8>, right: Seq<u8>) -> bool {
    at_most_from(left, right, 0)
}

/// Whether the names stand in the order of their bytes.
pub open spec fn in_order(names: Seq<Seq<u8>>) -> bool {
    forall|i: int, j: int|
        0 <= i < j < names.len() ==> at_most(#[trigger] names[i], #[trigger] names[j])
}

proof fn lemma_total(left: Seq<u8>, right: Seq<u8>, place: int)
    requires
        0 <= place,
    ensures
        at_most_from(left, right, place) || at_most_from(right, left, place),
    decreases left.len() - place,
{
    if place < left.len() && place < right.len() && left[place] == right[place] {
        lemma_total(left, right, place + 1);
    }
}

proof fn lemma_transitive(first: Seq<u8>, second: Seq<u8>, third: Seq<u8>, place: int)
    requires
        0 <= place,
        at_most_from(first, second, place),
        at_most_from(second, third, place),
    ensures
        at_most_from(first, third, place),
    decreases first.len() - place,
{
    if place < first.len() && place < second.len() && place < third.len() && first[place]
        == second[place] && second[place] == third[place] {
        lemma_transitive(first, second, third, place + 1);
    }
}

/// Whether `left` comes before `right`, or is equal to it, in the order of their bytes.
fn precedes(left: &[u8], right: &[u8]) -> (before: bool)
    ensures
        before == at_most(left@, right@),
{
    let mut i: usize = 0;
    while i < left.len()
        invariant
            i <= left@.len(),
            at_most(left@, right@) == at_most_from(left@, right@, i as int),
        decreases left@.len() - i,
    {
        if i >= right.len() {
            return false;
        }
        if left[i] != right[i] {
            return left[i] < right[i];
        }
        i = i + 1;
    }
    true
}

/// Puts `name` where it belongs among names that stand in order.
fn put_in_order(names: &mut Vec<Vec<u8>>, name: Vec<u8>)
    requires
        in_order(bytes_view(old(names)@)),
    ensures
        in_order(bytes_view(final(names)@)),
        bytes_view(final(names)@).to_multiset() == bytes_view(old(names)@).to_multiset().insert(
            name@,
        ),
{
    let mut place: usize = names.len();
    while place > 0 && !precedes(&names[place - 1], &name)
        invariant
            place <= names@.len(),
            in_order(bytes_view(names@)),
            forall|j: int| place <= j < names@.len() ==> at_most(name@, #[trigger] names@[j]@),
        decreases place,
    {
        proof {
            lemma_total(names@[place - 1]@, name@, 0);
        }
        place = place - 1;
    }
    let ghost before = bytes_view(names@);
    let ghost added = name@;
    proof {
        assert forall|j: int| 0 <= j < place implies at_most(#[trigger] before[j], added) by {
            if j < place - 1 {
                assert(at_most(before[j], before[place - 1]));
                lemma_transitive(before[j], before[place - 1], added, 0);
            }
        }
        assert forall|j: int| place <= j < before.len() implies at_most(
            added,
            #[trigger] before[j],
        ) by {
            assert(at_most(name@, names@[j]@));
        }
    }
    names.insert(place, name);
    proof {
        let after = bytes_view(names@);
        assert(after =~= before.insert(place as int, added));
        vstd::seq_lib::to_multiset_insert(before, place as int, added);
        assert forall|i: int, j: int| 0 <= i < j < after.len() implies at_most(
            #[trigger] after[i],
            #[trigger] after[j],
        ) by {
            let a = if i < place { i } else { i - 1 };
            let b = if j < place { j } else { j - 1 };
            if i != place {
                assert(after[i] == before[a]);
            }
            if j != place {
                assert(after[j] == before[b]);
            }
        }
    }
}

/// The files that are stored on a chain: those with the extension `wasm`, each as often as it is
/// listed, in the order of their bytes.
pub open spec fn selection(files: Seq<Seq<u8>>) -> Seq<Seq<u8>> {
    files.filter(|file: Seq<u8>| is_wasm(file)).sort_by(
        |left: Seq<u8>, right: Seq<u8>| at_most(left, right),
    )
}

proof fn lemma_antisymmetric(left: Seq<u8>, right: Seq<u8>, place: int)
    requires
        0 <= place <= left.len(),
        place <= right.len(),
        at_most_from(left, right, place),
        at_most_from(right, left, place),
        forall|i: int| 0 <= i < place ==> left[i] == right[i],
    ensures
        left == right,
    decreases left.len() - place,
{
    if place < left.len() {
        lemma_antisymmetric(left, right, place + 1);
    } else {
        assert(left =~= right);
    }
}

/// The order of the bytes is a total one.
proof fn lemma_order()
    ensures
        vstd::relations::total_ordering(|left: Seq<u8>, right: Seq<u8>| at_most(left, right)),
{
    let order = |left: Seq<u8>, right: Seq<u8>| at_most(left, right);
    assert forall|left: Seq<u8>| #[trigger] order(left, left) by {
        lemma_total(left, left, 0);
    }
    assert forall|left: Seq<u8>, right: Seq<u8>| #[trigger]
        order(left, right) || #[trigger] order(right, left) by {
        lemma_total(left, right, 0);
    }
    assert forall|left: Seq<u8>, right: Seq<u8>| #[trigger]
        order(left, right) && #[trigger] order(right, left) implies left == right by {
        lemma_antisymmetric(left, right, 0);
    }
    assert forall|first: Seq<u8>, second: Seq<u8>, third: Seq<u8>| #[trigger]
        order(first, second) && #[trigger] order(second, third) implies order(first, third) by {
        lemma_transitive(first, second, third, 0);
    }
}

/// The files that are selected stand in the order of their bytes, and are those with the extension
/// `wasm`, each as often as it was listed.
pub proof fn selection_is_complete_and_ordered(files: Seq<Seq<u8>>)
    ensures
        in_order(selection(files)),
        selection(files).to_multiset() == files.filter(
            |file: Seq<u8>| is_wasm(file),
        ).to_multiset(),
{
    let order = |left: Seq<u8>, right: Seq<u8>| at_most(left, right);
    lemma_order();
    files.filter(|file: Seq<u8>| is_wasm(file)).lemma_sort_by_ensures(order);
    let selected = selection(files);
    assert forall|i: int, j: int| 0 <= i < j < selected.len() implies at_most(
        #[trigger] selected[i],
        #[trigger] selected[j],
    ) by {
        assert(order(selected[i], selected[j]));
    }
}

/// Selects the files that are stored on a chain.
pub fn select_artifacts(files: Vec<Vec<u8>>) -> (selected: Vec<Vec<u8>>)
    ensures
        bytes_view(selected@) == selection(bytes_view(files@)),
{
    let ghost wasm = |file: Seq<u8>| is_wasm(file);
    let mut selected: Vec<Vec<u8>> = Vec::new();
    let mut i: usize = 0;
    proof {
        assert(bytes_view(selected@) =~= Seq::<Seq<u8>>::empty());
        assert(bytes_view(files@).take(0) =~= Seq::<Seq<u8>>::empty());
        reveal(Seq::filter);
    }
    while i < files.len()
        invariant
            i <= files@.len(),
            wasm == (|file: Seq<u8>| is_wasm(file)),
            in_order(bytes_view(selected@)),
            bytes_view(selected@).to_multiset() == bytes_view(files@).take(i as int).filter(
                wasm,
            ).to_multiset(),
        decreases files@.len() - i,
    {
        proof {
            let names = bytes_view(files@);
            assert(names.take(i + 1) =~= names.take(i as int).push(names[i as int]));
            names.take(i as int).lemma_filter_push(names[i as int], wasm);
            vstd::seq_lib::to_multiset_build(names.take(i as int).filter(wasm), names[i as int]);
        }
        if has_wasm_extension(&files[i]) {
            let name: Vec<u8> = vstd::slice::slice_to_vec(&files[i]);
            put_in_order(&mut selected, name);
        }
        i = i + 1;
    }
    proof {
        let names = bytes_view(files@);
        assert(names.take(i as int) =~= names);
        lemma_order();
        selection_is_complete_and_ordered(names);
        vstd::seq_lib::lemma_sorted_unique(
            bytes_view(selected@),
            selection(names),
            |left: Seq<u8>, right: Seq<u8>| at_most(left, right),
        );
    }
    selected
}

/// A file that consists of a name and the extension `wasm` is stored under that name, unless the
/// name ends with the mark of the architecture; and only that mark is ever removed.
pub proof fn variants_keep_their_names(base: Seq<u8>, arch: Seq<char>)
    requires
        base.len() > 0,
        valid_utf8(base),
    ensures
        ({
            let file = base + seq![0x2Eu8, 0x77, 0x61, 0x73, 0x6D];
            let name = decode_utf8(base);
            let mark = "-"@ + arch;
            &&& is_wasm(file)
            &&& !is_suffix(mark, name) ==> stored_name(file, arch) == Ok::<_, ErrorView>(name)
            &&& is_suffix(mark, name) ==> stored_name(file, arch) == Ok::<_, ErrorView>(
                name.take(name.len() - mark.len()),
            )
        }),
{
    let file = base + seq![0x2Eu8, 0x77, 0x61, 0x73, 0x6D];
    assert(file.skip(file.len() - 5) =~= seq![0x2Eu8, 0x77, 0x61, 0x73, 0x6D]);
    assert(is_last_dot(file, base.len() as int));
    let place = choose|place: int| is_last_dot(file, place) && place > 0;
    assert(place == base.len());
    assert(stem(file) =~= base);
}

/// The names with the extension `wasm` are those that end with it and have something before it.
pub proof fn wasm_names_end_with_the_extension(file: Seq<u8>, base: Seq<u8>)
    ensures
        base.len() > 0 && file == base + seq![0x2Eu8, 0x77, 0x61, 0x73, 0x6D] ==> is_wasm(file),
        is_wasm(file) ==> file.len() > 5 && file == file.take(file.len() - 5) + seq![
            0x2Eu8,
            0x77,
            0x61,
            0x73,
            0x6D,
        ],
{
    let extension = seq![0x2Eu8, 0x77, 0x61, 0x73, 0x6D];
    if file == base + extension {
        assert(file.skip(file.len() - 5) =~= extension);
    }
    if is_wasm(file) {
        assert(file =~= file.take(file.len() - 5) + file.skip(file.len() - 5));
    }
}

/// What stands behind the last dot is an extension, and the stem is all that stands before that
/// dot, unless nothing does.
pub proof fn the_stem_ends_before_the_last_dot(base: Seq<u8>, extension: Seq<u8>)
    requires
        !extension.contains(0x2E),
    ensures
        base.len() > 0 ==> stem(base + seq![0x2Eu8] + extension) == base,
        stem(seq![0x2Eu8] + extension) == seq![0x2Eu8] + extension,
        stem(extension) == extension,
{
    let file = base + seq![0x2Eu8] + extension;
    assert forall|i: int| base.len() < i < file.len() implies (#[trigger] file[i]) != 0x2E by {
        assert(file[i] == extension[i - base.len() - 1]);
        assert(extension.contains(extension[i - base.len() - 1]));
    }
    assert(is_last_dot(file, base.len() as int));
    if base.len() > 0 {
        let place = choose|place: int| is_last_dot(file, place) && place > 0;
        assert(place == base.len());
        assert(stem(file) =~= base);
    }
    let hidden = seq![0x2Eu8] + extension;
    assert forall|place: int| place > 0 implies !is_last_dot(hidden, place) by {
        if place < hidden.len() {
            assert(hidden[place] == extension[place - 1]);
            assert(extension.contains(extension[place - 1]));
        }
    }
    assert forall|place: int| !is_last_dot(extension, place) by {
        if 0 <= place < extension.len() {
            assert(extension.contains(extension[place]));
        }
    }
}

/// A file is stored under its stem, read as text, without the mark of the architecture. It is
/// refused where the stem is no text, and where it names no file.
pub proof fn files_are_stored_under_their_stems(file: Seq<u8>, arch: Seq<char>)
    ensures
        file == Seq::<u8>::empty() || file == seq![0x2Eu8] || file == seq![0x2Eu8, 0x2E]
            || !valid_utf8(stem(file)) ==> stored_name(file, arch) == Err::<Seq<char>, _>(
            ErrorView::Protocol("invalid Wasm filename"@),
        ),
        file.len() > 0 && file != seq![0x2Eu8] && file != seq![0x2Eu8, 0x2E] && valid_utf8(
            stem(file),
        ) ==> stored_name(file, arch) == Ok::<_, ErrorView>(
            stripped(decode_utf8(stem(file)), "-"@ + arch),
        ),
{
}

proof fn lemma_common(prefix: Seq<u8>, left: Seq<u8>, right: Seq<u8>, place: int)
    requires
        0 <= place <= prefix.len(),
    ensures
        at_most_from(prefix + left, prefix + right, place) == at_most_from(
            prefix + left,
            prefix + right,
            prefix.len() as int,
        ),
    decreases prefix.len() - place,
{
    if place < prefix.len() {
        assert((prefix + left)[place] == (prefix + right)[place]);
        lemma_common(prefix, left, right, place + 1);
    }
}

/// Names are ordered by the first byte in which they differ, and a name comes before every
/// continuation of itself.
pub proof fn names_are_ordered_by_their_bytes(
    prefix: Seq<u8>,
    smaller: u8,
    greater: u8,
    left: Seq<u8>,
    right: Seq<u8>,
)
    requires
        smaller < greater,
    ensures
        at_most(prefix + (seq![smaller] + left), prefix + (seq![greater] + right)),
        !at_most(prefix + (seq![greater] + right), prefix + (seq![smaller] + left)),
        at_most(prefix, prefix + right),
        right.len() > 0 ==> !at_most(prefix + right, prefix),
{
    lemma_common(prefix, seq![smaller] + left, seq![greater] + right, 0);
    lemma_common(prefix, seq![greater] + right, seq![smaller] + left, 0);
    lemma_common(prefix, Seq::empty(), right, 0);
    lemma_common(prefix, right, Seq::empty(), 0);
    assert(prefix + Seq::empty() =~= prefix);
    let first = prefix + (seq![smaller] + left);
    let second = prefix + (seq![greater] + right);
    assert(first[prefix.len() as int] == smaller);
    assert(second[prefix.len() as int] == greater);
}

proof fn lemma_kept(files: Seq<Seq<u8>>, file: Seq<u8>)
    ensures
        files.filter(|file: Seq<u8>| is_wasm(file)).to_multiset().count(file) == if is_wasm(file) {
            files.to_multiset().count(file)
        } else {
            0
        },
    decreases files.len(),
{
    let wasm = |file: Seq<u8>| is_wasm(file);
    files.to_multiset_ensures();
    files.filter(wasm).to_multiset_ensures();
    if files.len() == 0 {
        files.lemma_filter_len(wasm);
    } else {
        let before = files.drop_last();
        lemma_kept(before, file);
        before.to_multiset_ensures();
        before.filter(wasm).to_multiset_ensures();
        before.lemma_filter_push(files.last(), wasm);
        assert(files =~= before.push(files.last()));
    }
}

/// Of the selected files none comes before an earlier one. A file with the extension is selected as
/// often as it is listed, and no other one is selected.
pub proof fn selected_files_are_listed_in_order(files: Seq<Seq<u8>>, file: Seq<u8>)
    ensures
        forall|i: int, j: int|
            0 <= i < j < selection(files).len() ==> at_most(
                #[trigger] selection(files)[i],
                #[trigger] selection(files)[j],
            ),
        is_wasm(file) ==> selection(files).to_multiset().count(file) == files.to_multiset().count(
            file,
        ),
        !is_wasm(file) ==> selection(files).to_multiset().count(file) == 0,
{
    selection_is_complete_and_ordered(files);
    lemma_kept(files, file);
}

} // verus!
