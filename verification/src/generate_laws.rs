//! What holds of every generated source.

use crate::declarations::{ClosureView, DeclarationsView};
use crate::generate::{
    all_entries, all_text, all_warnings, classes_entries, classes_text, closure_entries,
    closure_text, closures_entries, closures_parts, closures_text, collision_warnings, first_use,
    is_collision, is_repeat, library_parts, library_text, metadata_text, preamble_text,
    type_entry_text, OriginView, PartView, ProtocolView,
};
use crate::text_laws::a_line_is_one_directive;
use vstd::prelude::*;

verus! {

/// A hash has at most one first use.
pub proof fn first_use_is_unique(closures: Seq<ClosureView>, i: int, j: int, hash: u64)
    requires
        first_use(closures, i, hash),
        first_use(closures, j, hash),
    ensures
        i == j,
{
    assert(closures[i].name_hash == hash);
    assert(closures[j].name_hash == hash);
}

/// The hash of every closure has a first use, and it is not after the closure.
pub proof fn first_use_exists(closures: Seq<ClosureView>, i: int)
    requires
        0 <= i < closures.len(),
    ensures
        exists|j: int| j <= i && #[trigger] first_use(closures, j, closures[i].name_hash),
{
    first_use_within(closures, i, i, closures[i].name_hash);
}

proof fn first_use_within(closures: Seq<ClosureView>, i: int, top: int, hash: u64)
    requires
        0 <= i <= top < closures.len(),
        closures[i].name_hash == hash,
    ensures
        exists|j: int| j <= top && #[trigger] first_use(closures, j, hash),
    decreases i,
{
    if exists|k: int| 0 <= k < i && (#[trigger] closures[k]).name_hash == hash {
        let k = choose|k: int| 0 <= k < i && (#[trigger] closures[k]).name_hash == hash;
        first_use_within(closures, k, top, hash);
    } else {
        assert(first_use(closures, i, hash));
    }
}

/// Each closure is exactly one of three: the first with its hash, a repeat of the first, or in
/// collision with it.
pub proof fn first_repeat_or_collision(closures: Seq<ClosureView>, i: int)
    requires
        0 <= i < closures.len(),
    ensures
        first_use(closures, i, closures[i].name_hash) || is_repeat(closures, i) || is_collision(
            closures,
            i,
        ),
        !(first_use(closures, i, closures[i].name_hash) && is_repeat(closures, i)),
        !(first_use(closures, i, closures[i].name_hash) && is_collision(closures, i)),
        !(is_repeat(closures, i) && is_collision(closures, i)),
{
    first_use_exists(closures, i);
    let j = choose|j: int| j <= i && #[trigger] first_use(closures, j, closures[i].name_hash);
    assert forall|k: int| #[trigger] first_use(closures, k, closures[i].name_hash) implies k
        == j by {
        first_use_is_unique(closures, k, j, closures[i].name_hash);
    }
}

/// Whether equal hashes always come from equal signatures.
pub open spec fn hashes_tell_apart(closures: Seq<ClosureView>) -> bool {
    forall|i: int, j: int|
        #![trigger closures[i], closures[j]]
        0 <= i < closures.len() && 0 <= j < closures.len() && closures[i].name_hash
            == closures[j].name_hash ==> closures[i].sig == closures[j].sig
}

/// Whether the closure at `j` gets a function that serves the closure at `i` too.
pub open spec fn stands_for(closures: Seq<ClosureView>, j: int, i: int) -> bool {
    &&& 0 <= j <= i
    &&& !is_repeat(closures, j)
    &&& closures[j].name_hash == closures[i].name_hash
    &&& closures[j].sig == closures[i].sig
}

/// Every closure is served: by a function of its own, or by that of an earlier closure with the
/// same hash and the same signature.
pub proof fn every_closure_is_served(closures: Seq<ClosureView>, i: int)
    requires
        0 <= i < closures.len(),
    ensures
        exists|j: int| #[trigger] stands_for(closures, j, i),
{
    if is_repeat(closures, i) {
        let j = choose|j: int| #[trigger]
            first_use(closures, j, closures[i].name_hash) && j < i && closures[j].sig
                == closures[i].sig;
        first_repeat_or_collision(closures, j);
        assert(stands_for(closures, j, i));
    } else {
        assert(stands_for(closures, i, i));
    }
}

/// Where equal hashes always come from equal signatures, each hash gets its function exactly once:
/// of the closures with a hash, just the first is not a repeat.
pub proof fn each_hash_is_generated_once(closures: Seq<ClosureView>, i: int)
    requires
        hashes_tell_apart(closures),
        0 <= i < closures.len(),
    ensures
        !is_repeat(closures, i) <==> first_use(closures, i, closures[i].name_hash),
        forall|j: int|
            0 <= j < closures.len() && j != i && !is_repeat(closures, i) && !is_repeat(closures, j)
                ==> (#[trigger] closures[j]).name_hash != closures[i].name_hash,
{
    first_repeat_or_collision(closures, i);
    assert forall|j: int|
        0 <= j < closures.len() && j != i && !is_repeat(closures, i) && !is_repeat(
            closures,
            j,
        ) implies (#[trigger] closures[j]).name_hash != closures[i].name_hash by {
        first_repeat_or_collision(closures, j);
        if closures[j].name_hash == closures[i].name_hash {
            first_use_is_unique(closures, i, j, closures[i].name_hash);
        }
    }
}

/// Where equal hashes always come from equal signatures, there is no warning.
pub proof fn no_collision_no_warning(closures: Seq<ClosureView>, n: nat)
    requires
        hashes_tell_apart(closures),
        n <= closures.len(),
    ensures
        collision_warnings(closures, n) == Seq::<Seq<char>>::empty(),
    decreases n,
{
    if n > 0 {
        no_collision_no_warning(closures, (n - 1) as nat);
        assert(!is_collision(closures, n - 1));
    }
}

/// How many of the first `n` closures are in collision with the first one of their hash.
pub open spec fn collisions(closures: Seq<ClosureView>, n: nat) -> nat
    decreases n,
{
    if n == 0 {
        0
    } else {
        collisions(closures, (n - 1) as nat) + if is_collision(closures, n - 1) {
            1nat
        } else {
            0nat
        }
    }
}

/// There is one warning for each collision, and all of them have the same text.
pub proof fn each_collision_is_reported(closures: Seq<ClosureView>, n: nat)
    ensures
        collision_warnings(closures, n).len() == collisions(closures, n),
        forall|i: int|
            0 <= i < collision_warnings(closures, n).len() ==> #[trigger] collision_warnings(
                closures,
                n,
            )[i] == "cargo:warning=Hash collision detected."@,
    decreases n,
{
    if n > 0 {
        each_collision_is_reported(closures, (n - 1) as nat);
        reveal_strlit("Hash collision detected.");
        reveal_strlit("cargo:warning=");
        reveal_strlit("cargo:warning=Hash collision detected.");
        a_line_is_one_directive("Hash collision detected."@);
        assert("cargo:warning="@ + "Hash collision detected."@
            =~= "cargo:warning=Hash collision detected."@);
    }
}

proof fn first_use_in_prefix(closures: Seq<ClosureView>, extra: ClosureView, j: int, hash: u64)
    requires
        j < closures.len(),
    ensures
        first_use(closures.push(extra), j, hash) == first_use(closures, j, hash),
{
    let longer = closures.push(extra);
    if 0 <= j {
        assert(longer[j] == closures[j]);
        assert(forall|k: int| 0 <= k < j ==> longer[k] == #[trigger] closures[k]);
        assert(forall|k: int| 0 <= k < j ==> closures[k] == #[trigger] longer[k]);
    }
}

proof fn prefix_decides(closures: Seq<ClosureView>, extra: ClosureView, i: int)
    requires
        0 <= i < closures.len(),
    ensures
        is_repeat(closures.push(extra), i) == is_repeat(closures, i),
        is_collision(closures.push(extra), i) == is_collision(closures, i),
{
    let longer = closures.push(extra);
    let hash = closures[i].name_hash;
    assert(longer[i] == closures[i]);
    assert forall|j: int| j < i implies #[trigger] first_use(longer, j, hash) == first_use(
        closures,
        j,
        hash,
    ) by {
        first_use_in_prefix(closures, extra, j, hash);
    }
    assert forall|j: int| j < i && #[trigger] first_use(closures, j, hash) implies first_use(
        longer,
        j,
        hash,
    ) by {
        first_use_in_prefix(closures, extra, j, hash);
    }
}

proof fn prefix_is_kept(closures: Seq<ClosureView>, extra: ClosureView, n: nat, origin: OriginView)
    requires
        n <= closures.len(),
    ensures
        closures_text(closures.push(extra), n, origin) == closures_text(closures, n, origin),
        closures_entries(closures.push(extra), n) == closures_entries(closures, n),
        collision_warnings(closures.push(extra), n) == collision_warnings(closures, n),
        closures_parts(closures.push(extra), n, origin) == closures_parts(closures, n, origin),
    decreases n,
{
    if n > 0 {
        prefix_is_kept(closures, extra, (n - 1) as nat, origin);
        prefix_decides(closures, extra, n - 1);
    }
}

/// A closure that repeats an earlier one, the first with its hash, changes nothing: the generated
/// source and the warnings are the same with and without it.
pub proof fn a_repeat_changes_nothing(
    declarations: DeclarationsView,
    extra: ClosureView,
    protocol: ProtocolView,
    origin: OriginView,
)
    requires
        is_repeat(declarations.closures.push(extra), declarations.closures.len() as int),
    ensures
        ({
            let more = DeclarationsView {
                closures: declarations.closures.push(extra),
                ..declarations
            };
            &&& library_parts(more, protocol, origin) == library_parts(
                declarations,
                protocol,
                origin,
            )
            &&& library_text(more, protocol, origin) == library_text(
                declarations,
                protocol,
                origin,
            )
            &&& collision_warnings(more.closures, more.closures.len()) == collision_warnings(
                declarations.closures,
                declarations.closures.len(),
            )
        }),
{
    let closures = declarations.closures;
    prefix_is_kept(closures, extra, closures.len(), origin);
    first_repeat_or_collision(closures.push(extra), closures.len() as int);
}

/// How many metadata entries the first `n` closures have: for each that is not a repeat one, and
/// one more for each of its captures.
pub open spec fn closure_entry_count(closures: Seq<ClosureView>, n: nat) -> nat
    decreases n,
{
    if n == 0 {
        0
    } else if is_repeat(closures, n - 1) {
        closure_entry_count(closures, (n - 1) as nat)
    } else {
        closure_entry_count(closures, (n - 1) as nat) + 1 + closures[n - 1].sig.captures.len()
    }
}

proof fn closures_entries_length(closures: Seq<ClosureView>, n: nat)
    ensures
        closures_entries(closures, n).len() == closure_entry_count(closures, n),
    decreases n,
{
    if n > 0 {
        closures_entries_length(closures, (n - 1) as nat);
    }
}

/// The metadata table has one entry for each type that crosses the language border: for the result
/// and the captures of every closure that gets a function, and for every class.
pub proof fn metadata_length(declarations: DeclarationsView)
    ensures
        all_entries(declarations).len() == closure_entry_count(
            declarations.closures,
            declarations.closures.len(),
        ) + declarations.classes.len(),
{
    closures_entries_length(declarations.closures, declarations.closures.len());
}

/// Whether equal signatures always have equal hashes.
pub open spec fn hashes_follow_signatures(closures: Seq<ClosureView>) -> bool {
    forall|i: int, j: int|
        #![trigger closures[i], closures[j]]
        0 <= i < closures.len() && 0 <= j < closures.len() && closures[i].sig == closures[j].sig
            ==> closures[i].name_hash == closures[j].name_hash
}

/// Whether an earlier closure has the signature of the closure at `i`.
pub open spec fn signature_was_met(closures: Seq<ClosureView>, i: int) -> bool {
    exists|j: int| 0 <= j < i && (#[trigger] closures[j]).sig == closures[i].sig
}

/// Where hashes stand for signatures, a closure is a repeat if and only if an earlier one has its
/// signature.
pub proof fn a_repeat_is_a_met_signature(closures: Seq<ClosureView>, i: int)
    requires
        hashes_follow_signatures(closures),
        hashes_tell_apart(closures),
        0 <= i < closures.len(),
    ensures
        is_repeat(closures, i) <==> signature_was_met(closures, i),
{
    first_repeat_or_collision(closures, i);
    if is_repeat(closures, i) {
        let j = choose|j: int| #[trigger]
            first_use(closures, j, closures[i].name_hash) && j < i && closures[j].sig
                == closures[i].sig;
        assert(closures[j].sig == closures[i].sig);
    } else if signature_was_met(closures, i) {
        let j = choose|j: int| 0 <= j < i && (#[trigger] closures[j]).sig == closures[i].sig;
        assert(closures[j].name_hash == closures[i].name_hash);
        assert(is_collision(closures, i));
    }
}

/// How many types the distinct signatures of the first `n` closures hold: for each one for the
/// result, and one more for each capture.
pub open spec fn signature_type_count(closures: Seq<ClosureView>, n: nat) -> nat
    decreases n,
{
    if n == 0 {
        0
    } else if signature_was_met(closures, n - 1) {
        signature_type_count(closures, (n - 1) as nat)
    } else {
        signature_type_count(closures, (n - 1) as nat) + 1 + closures[n - 1].sig.captures.len()
    }
}

proof fn counts_agree(closures: Seq<ClosureView>, n: nat)
    requires
        hashes_follow_signatures(closures),
        hashes_tell_apart(closures),
        n <= closures.len(),
    ensures
        closure_entry_count(closures, n) == signature_type_count(closures, n),
    decreases n,
{
    if n > 0 {
        counts_agree(closures, (n - 1) as nat);
        a_repeat_is_a_met_signature(closures, n - 1);
    }
}

/// Where hashes stand for signatures, the length of the metadata table is the number of types in
/// the distinct signatures plus the number of classes.
pub proof fn metadata_length_by_signature(declarations: DeclarationsView)
    requires
        hashes_follow_signatures(declarations.closures),
        hashes_tell_apart(declarations.closures),
    ensures
        all_entries(declarations).len() == signature_type_count(
            declarations.closures,
            declarations.closures.len(),
        ) + declarations.classes.len(),
{
    metadata_length(declarations);
    counts_agree(declarations.closures, declarations.closures.len());
}

proof fn closure_is_described(closures: Seq<ClosureView>, n: nat, i: int, entry: Seq<char>)
    requires
        0 <= i < n <= closures.len(),
        !is_repeat(closures, i),
        closure_entries(closures[i]).contains(entry),
    ensures
        closures_entries(closures, n).contains(entry),
    decreases n,
{
    let before = closures_entries(closures, (n - 1) as nat);
    let all = closures_entries(closures, n);
    if i == n - 1 {
        let own = closure_entries(closures[i]);
        let k = choose|k: int| 0 <= k < own.len() && own[k] == entry;
        assert(all[before.len() + k] == entry);
    } else {
        closure_is_described(closures, (n - 1) as nat, i, entry);
        let k = choose|k: int| 0 <= k < before.len() && before[k] == entry;
        assert(all[k] == entry);
    }
}

/// The metadata of a closure that gets a function, its own entry and those of its captures, is in
/// the table.
pub proof fn every_closure_is_described(
    declarations: DeclarationsView,
    i: int,
    entry: Seq<char>,
)
    requires
        0 <= i < declarations.closures.len(),
        !is_repeat(declarations.closures, i),
        closure_entries(declarations.closures[i]).contains(entry),
    ensures
        all_entries(declarations).contains(entry),
{
    let closures = declarations.closures;
    closure_is_described(closures, closures.len(), i, entry);
    let part = closures_entries(closures, closures.len());
    let k = choose|k: int| 0 <= k < part.len() && part[k] == entry;
    assert(all_entries(declarations)[k] == entry);
}

/// The metadata of each class is in the table.
pub proof fn every_class_is_described(declarations: DeclarationsView, i: int)
    requires
        0 <= i < declarations.classes.len(),
    ensures
        all_entries(declarations).contains(
            type_entry_text(declarations.classes[i].name_hash, declarations.classes[i].cpp),
        ),
{
    let part = closures_entries(declarations.closures, declarations.closures.len());
    assert(classes_entries(declarations.classes)[i] == all_entries(declarations)[part.len() + i]);
}

proof fn text_of_concat(a: Seq<PartView>, b: Seq<PartView>)
    ensures
        all_text(a + b) == all_text(a) + all_text(b),
        all_warnings(a + b) == all_warnings(a) + all_warnings(b),
    decreases b.len(),
{
    if b.len() == 0 {
        assert(a + b =~= a);
    } else {
        text_of_concat(a, b.drop_last());
        assert((a + b).drop_last() =~= a + b.drop_last());
        assert(all_text(a + b) =~= all_text(a) + all_text(b));
        assert(all_warnings(a + b) =~= all_warnings(a) + all_warnings(b));
    }
}

proof fn closures_in_parts(closures: Seq<ClosureView>, n: nat, origin: OriginView)
    requires
        n <= closures.len(),
    ensures
        all_text(closures_parts(closures, n, origin)) == closures_text(closures, n, origin),
        all_warnings(closures_parts(closures, n, origin)) == collision_warnings(closures, n),
    decreases n,
{
    if n > 0 {
        closures_in_parts(closures, (n - 1) as nat, origin);
        first_repeat_or_collision(closures, n - 1);
        if !is_repeat(closures, n - 1) {
            let before = closures_parts(closures, (n - 1) as nat, origin);
            let all = closures_parts(closures, n, origin);
            assert(all.drop_last() =~= before);
            assert(all_warnings(all) =~= collision_warnings(closures, n));
        }
    }
}

/// The parts in which a source is brought out make up the source, with one warning for each
/// collision.
pub proof fn the_parts_make_the_library(
    declarations: DeclarationsView,
    protocol: ProtocolView,
    origin: OriginView,
)
    ensures
        all_text(library_parts(declarations, protocol, origin)) == library_text(
            declarations,
            protocol,
            origin,
        ),
        all_warnings(library_parts(declarations, protocol, origin)) == collision_warnings(
            declarations.closures,
            declarations.closures.len(),
        ),
{
    let parts = library_parts(declarations, protocol, origin);
    let start = seq![parts[0]];
    let middle = closures_parts(declarations.closures, declarations.closures.len(), origin);
    closures_in_parts(declarations.closures, declarations.closures.len(), origin);
    text_of_concat(start, middle);
    assert(parts.drop_last() =~= start + middle);
    assert(start.drop_last() =~= Seq::empty());
    reveal_with_fuel(all_text, 2);
    reveal_with_fuel(all_warnings, 2);
    assert(all_text(start) =~= parts[0].text);
    assert(all_warnings(start) =~= Seq::empty());
    let classes = classes_text(declarations.classes, declarations.classes.len());
    let metadata = metadata_text(all_entries(declarations), protocol, origin);
    let front = parts[0].text + all_text(middle);
    assert(front + (classes + metadata) =~= front + classes + metadata);
    assert(all_warnings(parts) =~= all_warnings(middle));
}

/// Whether `part` occurs in `whole`.
pub open spec fn occurs_in(part: Seq<char>, whole: Seq<char>) -> bool {
    exists|before: Seq<char>, after: Seq<char>| whole == #[trigger] (before + part + after)
}

proof fn occurs_in_longer(part: Seq<char>, left: Seq<char>, middle: Seq<char>, right: Seq<char>)
    requires
        occurs_in(part, middle),
    ensures
        occurs_in(part, left + middle + right),
{
    let (before, after) = choose|before: Seq<char>, after: Seq<char>|
        middle == #[trigger] (before + part + after);
    assert(left + middle + right =~= (left + before) + part + (after + right));
}

proof fn closure_occurs(closures: Seq<ClosureView>, n: nat, i: int, origin: OriginView)
    requires
        0 <= i < n <= closures.len(),
        !is_repeat(closures, i),
    ensures
        occurs_in(closure_text(closures[i], origin), closures_text(closures, n, origin)),
    decreases n,
{
    let part = closure_text(closures[i], origin);
    let before = closures_text(closures, (n - 1) as nat, origin);
    let none = Seq::<char>::empty();
    if i == n - 1 {
        assert(before + part =~= before + part + none);
    } else {
        closure_occurs(closures, (n - 1) as nat, i, origin);
        if !is_repeat(closures, n - 1) {
            let last = closure_text(closures[n - 1], origin);
            occurs_in_longer(part, none, before, last);
            assert(none + before + last =~= before + last);
        }
    }
}

/// The function of each closure that is not a repeat is in the generated source.
pub proof fn every_closure_is_generated(
    declarations: DeclarationsView,
    i: int,
    protocol: ProtocolView,
    origin: OriginView,
)
    requires
        0 <= i < declarations.closures.len(),
        !is_repeat(declarations.closures, i),
    ensures
        occurs_in(
            closure_text(declarations.closures[i], origin),
            library_text(declarations, protocol, origin),
        ),
{
    let closures = declarations.closures;
    closure_occurs(closures, closures.len(), i, origin);
    let left = preamble_text(declarations.callbacks_count, protocol, origin)
        + declarations.snippets + "\n\n"@;
    let middle = closures_text(closures, closures.len(), origin);
    let classes = classes_text(declarations.classes, declarations.classes.len());
    let metadata = metadata_text(all_entries(declarations), protocol, origin);
    occurs_in_longer(closure_text(closures[i], origin), left, middle, classes + metadata);
    assert(left + middle + (classes + metadata) =~= left + middle + classes + metadata);
}

/// The snippets are in the generated source as they are.
pub proof fn the_snippets_are_copied(
    declarations: DeclarationsView,
    protocol: ProtocolView,
    origin: OriginView,
)
    ensures
        occurs_in(declarations.snippets, library_text(declarations, protocol, origin)),
{
    let left = preamble_text(declarations.callbacks_count, protocol, origin);
    let closures = closures_text(declarations.closures, declarations.closures.len(), origin);
    let classes = classes_text(declarations.classes, declarations.classes.len());
    let metadata = metadata_text(all_entries(declarations), protocol, origin);
    assert(left + declarations.snippets + "\n\n"@ + closures + classes + metadata =~= left
        + declarations.snippets + ("\n\n"@ + closures + classes + metadata));
}

} // verus!
