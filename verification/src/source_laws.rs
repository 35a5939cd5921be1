//! What a C++ compiler, and the reader of the metadata, find in every generated source.
//!
//! The statements here take the source apart by what is in it: numbers are read from their numerals
//! ([`is_numeral`]), lists from their items ([`lists`]), file names from string literals
//! ([`unescaped`]).

use crate::declarations::{CaptureView, ClassView, ClosureView, DeclarationsView};
use crate::generate::{
    all_entries, all_text, all_warnings, args_text, callback_table_text, class_text,
    classes_entries, classes_text, closure_entries, closure_part, closure_text, closures_entries,
    closures_parts, collision_warnings, entry_start_text, first_use, is_collision, is_repeat,
    library_parts, library_text, line_directive_text, magic_text, metadata_text, param_text,
    params_text, type_entry_text, FlagBits, OriginView, PartView, ProtocolView,
};
use crate::generate_laws::{first_repeat_or_collision, occurs_in, the_parts_make_the_library};
use crate::templates::{
    CALLBACK_TABLE_OPEN, INTERNAL_CPP_STRUCTS, METADATA_OPEN, METADATA_TYPES, TRIVIAL_BITS,
    VALUE_CLOSURE_OPEN, VOID_CLOSURE_OPEN,
};
use crate::text::{decimal, escaped, joined};
use crate::text_laws::{
    a_joined_list_holds_its_parts, a_line_is_one_directive, a_list_reads_one_way,
    a_numeral_reads_back, an_escaped_name_reads_back, is_numeral, lists, unescaped,
};
use vstd::prelude::*;

verus! {

/// Whether `text` is a line directive with this numeral and this name in its string literal.
pub open spec fn directs(text: Seq<char>, numeral: Seq<char>, name: Seq<char>) -> bool {
    text == "#line "@ + numeral + " \""@ + name + "\"\n"@
}

/// Whether `text` makes the next line count as line `line` of `file`.
pub open spec fn is_line_directive(text: Seq<char>, line: u32, file: Seq<char>) -> bool {
    exists|numeral: Seq<char>, name: Seq<char>| #[trigger]
        directs(text, numeral, name) && is_numeral(numeral, line as nat) && unescaped(name)
            == Some(file)
}

proof fn line_directives_direct(line: u32, file: Seq<char>)
    ensures
        is_line_directive(line_directive_text(line, file), line, file),
{
    a_numeral_reads_back(line as nat);
    an_escaped_name_reads_back(file);
    assert(directs(line_directive_text(line, file), decimal(line as nat), escaped(file)));
}

/// Whether `text` declares the parameter for a captured variable: a reference to its type, to a
/// constant unless the closure may change it, then its name.
pub open spec fn is_param(text: Seq<char>, capture: CaptureView) -> bool {
    text == capture.cpp + (if capture.mutable {
        " & "@
    } else {
        " const& "@
    }) + capture.name
}

/// Whether each of `params` declares the parameter for the capture in its place.
pub open spec fn are_params(params: Seq<Seq<char>>, captures: Seq<CaptureView>) -> bool {
    &&& params.len() == captures.len()
    &&& forall|i: int| 0 <= i < captures.len() ==> is_param(#[trigger] params[i], captures[i])
}

/// Whether `text` is the parameter list for the captured variables, all of them in order.
pub open spec fn is_param_list(text: Seq<char>, captures: Seq<CaptureView>) -> bool {
    exists|params: Seq<Seq<char>>| #[trigger]
        lists(text, params, ", "@) && are_params(params, captures)
}

/// Whether `text` is the argument list that names the captured variables, all of them in order.
pub open spec fn is_arg_list(text: Seq<char>, captures: Seq<CaptureView>) -> bool {
    lists(text, Seq::new(captures.len(), |i: int| captures[i].name), ", "@)
}

proof fn param_lists_list(captures: Seq<CaptureView>)
    ensures
        is_param_list(params_text(captures), captures),
        is_arg_list(args_text(captures), captures),
        params_text(captures).len() == 0 <==> captures.len() == 0,
{
    let params = captures.map_values(|c: CaptureView| param_text(c));
    a_joined_list_holds_its_parts(params, ", "@);
    assert(lists(params_text(captures), params, ", "@));
    let names = captures.map_values(|c: CaptureView| c.name);
    a_joined_list_holds_its_parts(names, ", "@);
    assert(names =~= Seq::new(captures.len(), |i: int| captures[i].name));
    if captures.len() > 0 {
        reveal_strlit(" & ");
        reveal_strlit(" const& ");
        assert(params.last().len() > 0);
        assert(params_text(captures).len() >= params.last().len());
    }
}

/// Whether `text` is the function of a closure without a result: a C function with the closure's
/// name, these parameters and the closure's body.
pub open spec fn runs_the_body(
    text: Seq<char>,
    closure: ClosureView,
    directive: Seq<char>,
    params: Seq<char>,
) -> bool {
    text == directive + VOID_CLOSURE_OPEN@ + closure.extern_name + "("@ + params + ") {\n"@
        + closure.body_str + "\n}\n}\n"@
}

/// Whether `text` is the functions of a closure with a result: one with the closure's body, and a C
/// function with the closure's name and one parameter more, which passes its other parameters on
/// and constructs the result where that last one points to. `comma` stands before the last one.
pub open spec fn constructs_the_result(
    text: Seq<char>,
    closure: ClosureView,
    directive: Seq<char>,
    params: Seq<char>,
    comma: Seq<char>,
    args: Seq<char>,
) -> bool {
    text == directive + VALUE_CLOSURE_OPEN@ + closure.sig.cpp + " "@ + closure.extern_name
        + "_impl("@ + params + ") {\n"@ + closure.body_str + "\n}\nextern \"C\" {\nvoid "@
        + closure.extern_name + "("@ + params + comma
        + " void* __result) {\n    ::new(__result) ("@ + closure.sig.cpp + ")("@
        + closure.extern_name + "_impl("@ + args + "));\n}\n}\n"@
}

/// Whether `text` is the C++ of a closure. The parameters are the captured variables. For a closure
/// with a result the pointer to it follows them, behind a comma if and only if there are any.
pub open spec fn is_closure_text(
    text: Seq<char>,
    closure: ClosureView,
    origin: OriginView,
) -> bool {
    if closure.sig.cpp == "void"@ {
        exists|directive: Seq<char>, params: Seq<char>| #[trigger]
            runs_the_body(text, closure, directive, params) && is_line_directive(
                directive,
                origin.void_closure,
                origin.file,
            ) && is_param_list(params, closure.sig.captures)
    } else {
        exists|directive: Seq<char>, params: Seq<char>, comma: Seq<char>, args: Seq<char>|
            #[trigger]
            constructs_the_result(text, closure, directive, params, comma, args)
                && is_line_directive(directive, origin.value_closure, origin.file)
                && is_param_list(params, closure.sig.captures) && is_arg_list(
                args,
                closure.sig.captures,
            ) && comma == (if closure.sig.captures.len() == 0 {
                ""@
            } else {
                ","@
            })
    }
}

/// Each closure is generated as C++ that takes its captured variables and runs its body. The C
/// function of a closure with a result has the captured variables' parameters, then the pointer to
/// the result, with a comma between each two neighbours.
pub proof fn a_closure_takes_its_captures(closure: ClosureView, origin: OriginView)
    ensures
        is_closure_text(closure_text(closure, origin), closure, origin),
{
    let text = closure_text(closure, origin);
    let captures = closure.sig.captures;
    let params = params_text(captures);
    param_lists_list(captures);
    if closure.sig.cpp == "void"@ {
        let directive = line_directive_text(origin.void_closure, origin.file);
        line_directives_direct(origin.void_closure, origin.file);
        assert(runs_the_body(text, closure, directive, params));
    } else {
        let directive = line_directive_text(origin.value_closure, origin.file);
        line_directives_direct(origin.value_closure, origin.file);
        let comma = if captures.len() == 0 {
            ""@
        } else {
            ","@
        };
        assert(constructs_the_result(text, closure, directive, params, comma, args_text(captures)));
    }
}

/// Whether the closure at `i` has the hash of an earlier one.
pub open spec fn hash_was_met(closures: Seq<ClosureView>, i: int) -> bool {
    exists|j: int| 0 <= j < i && (#[trigger] closures[j]).name_hash == closures[i].name_hash
}

/// Whether the closure at `i` is the same, by hash and signature, as an earlier one, which is the
/// first of all with that hash.
pub open spec fn was_met(closures: Seq<ClosureView>, i: int) -> bool {
    exists|j: int|
        0 <= j < i && (#[trigger] closures[j]).name_hash == closures[i].name_hash
            && closures[j].sig == closures[i].sig && !hash_was_met(closures, j)
}

/// Whether `order` is the places of the closures that were not met before, in order.
pub open spec fn picks_the_new(order: Seq<int>, closures: Seq<ClosureView>) -> bool {
    &&& forall|k: int| 0 <= k < order.len() ==> 0 <= #[trigger] order[k] < closures.len()
    &&& forall|k: int, l: int|
        0 <= k < l < order.len() ==> #[trigger] order[k] < #[trigger] order[l]
    &&& forall|i: int|
        0 <= i < closures.len() ==> (#[trigger] was_met(closures, i) <==> !order.contains(i))
}

proof fn repeats_were_met(closures: Seq<ClosureView>, i: int)
    requires
        0 <= i < closures.len(),
    ensures
        is_repeat(closures, i) == was_met(closures, i),
        !is_repeat(closures, i) ==> is_collision(closures, i) == hash_was_met(closures, i),
{
    let hash = closures[i].name_hash;
    first_repeat_or_collision(closures, i);
    if is_repeat(closures, i) {
        let j = choose|j: int| #[trigger]
            first_use(closures, j, hash) && j < i && closures[j].sig == closures[i].sig;
        assert(closures[j].name_hash == hash);
        assert(!hash_was_met(closures, j));
    }
    if was_met(closures, i) {
        let j = choose|j: int|
            0 <= j < i && (#[trigger] closures[j]).name_hash == closures[i].name_hash
                && closures[j].sig == closures[i].sig && !hash_was_met(closures, j);
        assert(first_use(closures, j, hash));
    }
    if is_collision(closures, i) {
        let j = choose|j: int| #[trigger]
            first_use(closures, j, hash) && j < i && closures[j].sig != closures[i].sig;
        assert(closures[j].name_hash == hash);
    }
}

/// The places of the first `n` closures that are not repeats.
spec fn new_places(closures: Seq<ClosureView>, n: nat) -> Seq<int>
    decreases n,
{
    if n == 0 {
        Seq::empty()
    } else if is_repeat(closures, n - 1) {
        new_places(closures, (n - 1) as nat)
    } else {
        new_places(closures, (n - 1) as nat).push(n - 1)
    }
}

proof fn new_places_pick(closures: Seq<ClosureView>, n: nat)
    requires
        n <= closures.len(),
    ensures
        forall|k: int|
            0 <= k < new_places(closures, n).len() ==> 0 <= #[trigger] new_places(closures, n)[k]
                < n,
        forall|k: int, l: int|
            0 <= k < l < new_places(closures, n).len() ==> #[trigger] new_places(closures, n)[k]
                < #[trigger] new_places(closures, n)[l],
        forall|i: int|
            0 <= i < n ==> (#[trigger] was_met(closures, i) <==> !new_places(closures, n).contains(
                i,
            )),
    decreases n,
{
    if n > 0 {
        let before = new_places(closures, (n - 1) as nat);
        let order = new_places(closures, n);
        new_places_pick(closures, (n - 1) as nat);
        repeats_were_met(closures, n - 1);
        assert forall|i: int| 0 <= i < n implies (#[trigger] was_met(closures, i)
            <==> !order.contains(i)) by {
            if i < n - 1 {
                if before.contains(i) {
                    let k = choose|k: int| 0 <= k < before.len() && before[k] == i;
                    assert(order[k] == i);
                } else if order.contains(i) {
                    let k = choose|k: int| 0 <= k < order.len() && order[k] == i;
                    assert(k < before.len() ==> before[k] == i);
                }
            } else {
                if !is_repeat(closures, i) {
                    assert(order[before.len() as int] == i);
                }
            }
        }
    }
}

proof fn parts_in_places(closures: Seq<ClosureView>, n: nat, origin: OriginView)
    requires
        n <= closures.len(),
    ensures
        closures_parts(closures, n, origin).len() == new_places(closures, n).len(),
        forall|k: int|
            0 <= k < new_places(closures, n).len() ==> #[trigger] closures_parts(
                closures,
                n,
                origin,
            )[k] == closure_part(closures, new_places(closures, n)[k], origin),
    decreases n,
{
    if n > 0 {
        parts_in_places(closures, (n - 1) as nat, origin);
    }
}

/// The warnings that come with the closure at `i`: one if its hash was met before.
pub open spec fn are_collision_warnings(
    warnings: Seq<Seq<char>>,
    closures: Seq<ClosureView>,
    i: int,
) -> bool {
    if hash_was_met(closures, i) {
        warnings == seq!["cargo:warning=Hash collision detected."@]
    } else {
        warnings.len() == 0
    }
}

proof fn collisions_warn(closures: Seq<ClosureView>, i: int, origin: OriginView)
    requires
        0 <= i < closures.len(),
        !is_repeat(closures, i),
    ensures
        are_collision_warnings(closure_part(closures, i, origin).warnings, closures, i),
{
    repeats_were_met(closures, i);
    reveal_strlit("Hash collision detected.");
    reveal_strlit("cargo:warning=");
    reveal_strlit("cargo:warning=Hash collision detected.");
    a_line_is_one_directive("Hash collision detected."@);
    assert("cargo:warning="@ + "Hash collision detected."@
        =~= "cargo:warning=Hash collision detected."@);
}

/// Each closure that was not met before has a part of its own, with its C++ and with a warning if
/// and only if another closure has its hash already; the others have none. The parts stand in the
/// order of the closures, after one part and before one that are not about closures and come
/// without warnings.
pub proof fn each_new_closure_has_a_part(
    declarations: DeclarationsView,
    protocol: ProtocolView,
    origin: OriginView,
) -> (order: Seq<int>)
    ensures
        ({
            let parts = library_parts(declarations, protocol, origin);
            let closures = declarations.closures;
            &&& picks_the_new(order, closures)
            &&& parts.len() == order.len() + 2
            &&& parts.first().warnings.len() == 0
            &&& parts.last().warnings.len() == 0
            &&& forall|i: int|
                1 <= i <= order.len() ==> {
                    &&& is_closure_text(
                        (#[trigger] parts[i]).text,
                        closures[order[i - 1]],
                        origin,
                    )
                    &&& are_collision_warnings(parts[i].warnings, closures, order[i - 1])
                }
        }),
{
    let parts = library_parts(declarations, protocol, origin);
    let closures = declarations.closures;
    let order = new_places(closures, closures.len());
    new_places_pick(closures, closures.len());
    parts_in_places(closures, closures.len(), origin);
    assert forall|i: int| 1 <= i <= order.len() implies {
        &&& is_closure_text((#[trigger] parts[i]).text, closures[order[i - 1]], origin)
        &&& are_collision_warnings(parts[i].warnings, closures, order[i - 1])
    } by {
        let place = order[i - 1];
        assert(parts[i] == closures_parts(closures, closures.len(), origin)[i - 1]);
        assert(order.contains(place));
        assert(!was_met(closures, place));
        repeats_were_met(closures, place);
        a_closure_takes_its_captures(closures[place], origin);
        collisions_warn(closures, place, origin);
    }
    order
}

/// The line that defines how a class is constructed, copied and destroyed.
pub open spec fn class_helper(class: ClassView, hash: Seq<char>) -> Seq<char> {
    class.line + "RUST_CPP_CLASS_HELPER("@ + hash + ", "@ + class.cpp + ")\n"@
}

/// The C function that tells whether two objects of a class are equal.
pub open spec fn class_equality(class: ClassView, hash: Seq<char>) -> Seq<char> {
    class.line + "extern \"C\" bool __cpp_equal_"@ + hash + "(const "@ + class.cpp + " *a, const "@
        + class.cpp + " *b) { return *a == *b; }\n"@
}

/// The C function that orders two objects of a class.
pub open spec fn class_order(class: ClassView, hash: Seq<char>) -> Seq<char> {
    class.line + "extern \"C\" bool __cpp_compare_"@ + hash + "(const "@ + class.cpp
        + " *a, const "@ + class.cpp
        + " *b, int cmp) { return rustcpp::compare_helper(*a, *b, cmp); }\n"@
}

/// Whether `text` is what a class gets, its hash written as `hash`: the helper, the equality if and
/// only if it derives `PartialEq`, the order if and only if it derives `PartialOrd`.
pub open spec fn serves_the_class(text: Seq<char>, class: ClassView, hash: Seq<char>) -> bool {
    text == class_helper(class, hash) + (if class.derived_traits.contains("PartialEq"@) {
        class_equality(class, hash)
    } else {
        Seq::empty()
    }) + (if class.derived_traits.contains("PartialOrd"@) {
        class_order(class, hash)
    } else {
        Seq::empty()
    })
}

/// Whether `text` is the C++ of a class.
pub open spec fn is_class_text(text: Seq<char>, class: ClassView) -> bool {
    exists|hash: Seq<char>| #[trigger]
        serves_the_class(text, class, hash) && is_numeral(hash, class.name_hash as nat)
}

proof fn class_texts_serve(class: ClassView)
    ensures
        is_class_text(class_text(class), class),
{
    let hash = decimal(class.name_hash as nat);
    a_numeral_reads_back(class.name_hash as nat);
    let none = Seq::<char>::empty();
    let helper = class_helper(class, hash);
    assert(helper + none =~= helper);
    assert(helper + class_equality(class, hash) + none =~= helper + class_equality(class, hash));
    assert(serves_the_class(class_text(class), class, hash));
}

/// Whether `texts` is the C++ of each class in its place.
pub open spec fn are_class_texts(texts: Seq<Seq<char>>, classes: Seq<ClassView>) -> bool {
    &&& texts.len() == classes.len()
    &&& forall|i: int| 0 <= i < classes.len() ==> is_class_text(#[trigger] texts[i], classes[i])
}

proof fn classes_are_served(classes: Seq<ClassView>, n: nat) -> (texts: Seq<Seq<char>>)
    requires
        n <= classes.len(),
    ensures
        are_class_texts(texts, classes.take(n as int)),
        classes_text(classes, n) == texts.flatten(),
    decreases n,
{
    if n == 0 {
        Seq::empty()
    } else {
        let before = classes_are_served(classes, (n - 1) as nat);
        let text = class_text(classes[n - 1]);
        class_texts_serve(classes[n - 1]);
        before.lemma_flatten_push(text);
        let texts = before.push(text);
        assert forall|i: int| 0 <= i < n implies is_class_text(
            #[trigger] texts[i],
            classes.take(n as int)[i],
        ) by {
            if i < n - 1 {
                assert(texts[i] == before[i]);
                assert(classes.take(n - 1)[i] == classes.take(n as int)[i]);
            }
        }
        texts
    }
}

/// The metadata of a type up to its flags: the hash it goes by, its size, its alignment.
pub open spec fn described(hash: Seq<char>, cpp: Seq<char>) -> Seq<char> {
    "{\n                "@ + hash + "ull,\n                sizeof("@ + cpp
        + "),\n                rustcpp::AlignOf<"@ + cpp
        + ">::value,\n                rustcpp::Flags<"@ + cpp + ">::value"@
}

/// Whether `entry` describes the type `cpp` under the hash written as `hash`.
pub open spec fn describes(entry: Seq<char>, hash: Seq<char>, cpp: Seq<char>) -> bool {
    entry == described(hash, cpp) + "\n            }"@
}

/// Whether `entry` is the metadata of the type `cpp` under `hash`.
pub open spec fn is_type_entry(entry: Seq<char>, hash: u64, cpp: Seq<char>) -> bool {
    exists|numeral: Seq<char>| #[trigger]
        describes(entry, numeral, cpp) && is_numeral(numeral, hash as nat)
}

/// Whether `entry` describes the result of a closure and says where its callbacks start, with the
/// hash and that place written as given. No result is described as a type of size zero.
pub open spec fn describes_the_result(
    entry: Seq<char>,
    closure: ClosureView,
    hash: Seq<char>,
    offset: Seq<char>,
) -> bool {
    if closure.sig.cpp == "void"@ {
        entry == "{"@ + hash + "ull, 0, 1, "@ + offset + "ull << 32}"@
    } else {
        entry == described(hash, closure.sig.cpp) + " | "@ + offset + "ull << 32\n            }"@
    }
}

/// Whether `entry` is the metadata of a closure itself.
pub open spec fn is_result_entry(entry: Seq<char>, closure: ClosureView) -> bool {
    exists|hash: Seq<char>, offset: Seq<char>| #[trigger]
        describes_the_result(entry, closure, hash, offset) && is_numeral(
            hash,
            closure.name_hash as nat,
        ) && is_numeral(offset, closure.callback_offset as nat)
}

/// Whether `entries` is the metadata of a closure: of its result, then of the type of each captured
/// variable in order.
pub open spec fn are_closure_entries(entries: Seq<Seq<char>>, closure: ClosureView) -> bool {
    &&& entries.len() == 1 + closure.sig.captures.len()
    &&& is_result_entry(entries[0], closure)
    &&& forall|i: int|
        1 <= i <= closure.sig.captures.len() ==> is_type_entry(
            #[trigger] entries[i],
            closure.name_hash,
            closure.sig.captures[i - 1].cpp,
        )
}

/// Whether `entries` is the metadata of each class in its place.
pub open spec fn are_class_entries(entries: Seq<Seq<char>>, classes: Seq<ClassView>) -> bool {
    &&& entries.len() == classes.len()
    &&& forall|i: int|
        0 <= i < classes.len() ==> is_type_entry(
            #[trigger] entries[i],
            classes[i].name_hash,
            classes[i].cpp,
        )
}

proof fn type_entries_describe(hash: u64, cpp: Seq<char>)
    ensures
        is_type_entry(type_entry_text(hash, cpp), hash, cpp),
{
    a_numeral_reads_back(hash as nat);
    assert(entry_start_text(hash, cpp) == described(decimal(hash as nat), cpp));
    assert(describes(type_entry_text(hash, cpp), decimal(hash as nat), cpp));
}

proof fn closures_are_described(closure: ClosureView)
    ensures
        are_closure_entries(closure_entries(closure), closure),
{
    let entries = closure_entries(closure);
    let hash = decimal(closure.name_hash as nat);
    let offset = decimal(closure.callback_offset as nat);
    a_numeral_reads_back(closure.name_hash as nat);
    a_numeral_reads_back(closure.callback_offset as nat);
    assert(describes_the_result(entries[0], closure, hash, offset));
    assert forall|i: int| 1 <= i <= closure.sig.captures.len() implies is_type_entry(
        #[trigger] entries[i],
        closure.name_hash,
        closure.sig.captures[i - 1].cpp,
    ) by {
        type_entries_describe(closure.name_hash, closure.sig.captures[i - 1].cpp);
    }
}

/// Whether `groups` is the metadata of each of the closures at `order`.
pub open spec fn describe_the_new(
    groups: Seq<Seq<Seq<char>>>,
    closures: Seq<ClosureView>,
    order: Seq<int>,
) -> bool {
    &&& groups.len() == order.len()
    &&& forall|k: int|
        0 <= k < order.len() ==> are_closure_entries(#[trigger] groups[k], closures[order[k]])
}

proof fn entries_in_places(closures: Seq<ClosureView>, n: nat) -> (groups: Seq<Seq<Seq<char>>>)
    requires
        n <= closures.len(),
    ensures
        describe_the_new(groups, closures, new_places(closures, n)),
        closures_entries(closures, n) == groups.flatten(),
    decreases n,
{
    if n == 0 {
        Seq::empty()
    } else {
        let before = entries_in_places(closures, (n - 1) as nat);
        if is_repeat(closures, n - 1) {
            before
        } else {
            let own = closure_entries(closures[n - 1]);
            closures_are_described(closures[n - 1]);
            before.lemma_flatten_push(own);
            let groups = before.push(own);
            let order = new_places(closures, n);
            assert forall|k: int| 0 <= k < order.len() implies are_closure_entries(
                #[trigger] groups[k],
                closures[order[k]],
            ) by {
                if k < before.len() {
                    assert(groups[k] == before[k]);
                }
            }
            groups
        }
    }
}

/// Whether `numerals` writes the bytes, each in its place.
pub open spec fn write_the_bytes(numerals: Seq<Seq<char>>, bytes: Seq<u8>) -> bool {
    &&& numerals.len() == bytes.len()
    &&& forall|i: int|
        0 <= i < bytes.len() ==> is_numeral(#[trigger] numerals[i], bytes[i] as nat)
}

/// Whether `text` lists the bytes, all of them in order.
pub open spec fn is_byte_list(text: Seq<char>, bytes: Seq<u8>) -> bool {
    exists|numerals: Seq<Seq<char>>| #[trigger]
        lists(text, numerals, ", "@) && write_the_bytes(numerals, bytes)
}

/// The initializer of the magic lists every byte of it, as a number, in order.
pub proof fn the_magic_reads_back(magic: Seq<u8>)
    ensures
        is_byte_list(magic_text(magic), magic),
{
    let numerals = magic.map_values(|b: u8| decimal(b as nat));
    a_joined_list_holds_its_parts(numerals, ", "@);
    assert(lists(magic_text(magic), numerals, ", "@));
    assert forall|i: int| 0 <= i < magic.len() implies is_numeral(
        #[trigger] numerals[i],
        magic[i] as nat,
    ) by {
        a_numeral_reads_back(magic[i] as nat);
    }
}

proof fn byte_lists_are_unique(text: Seq<char>, a: Seq<u8>, b: Seq<u8>)
    requires
        is_byte_list(text, a),
        is_byte_list(text, b),
    ensures
        a == b,
{
    let x = choose|x: Seq<Seq<char>>| #[trigger] lists(text, x, ", "@) && write_the_bytes(x, a);
    let y = choose|y: Seq<Seq<char>>| #[trigger] lists(text, y, ", "@) && write_the_bytes(y, b);
    assert forall|i: int| 0 <= i < x.len() implies (#[trigger] x[i]).len() > 0 && !x[i].contains(
        ',',
    ) by {
        assert(is_numeral(x[i], a[i] as nat));
    }
    assert forall|i: int| 0 <= i < y.len() implies (#[trigger] y[i]).len() > 0 && !y[i].contains(
        ',',
    ) by {
        assert(is_numeral(y[i], b[i] as nat));
    }
    a_list_reads_one_way(text, x, y);
    assert forall|i: int| 0 <= i < a.len() implies a[i] == b[i] by {
        assert(is_numeral(x[i], a[i] as nat));
        assert(is_numeral(y[i], b[i] as nat));
    }
    assert(a =~= b);
}

/// Different magics have different initializers: the whole magic, of whatever length, can be told
/// from its own.
pub proof fn magics_differ_in_the_source(a: Seq<u8>, b: Seq<u8>)
    requires
        magic_text(a) == magic_text(b),
    ensures
        a == b,
{
    the_magic_reads_back(a);
    the_magic_reads_back(b);
    byte_lists_are_unique(magic_text(a), a, b);
}

/// Whether `bits` writes the positions of the type traits.
pub open spec fn write_the_flags(bits: Seq<Seq<char>>, flags: FlagBits) -> bool {
    &&& bits.len() == 5
    &&& is_numeral(bits[0], flags.is_copy_constructible as nat)
    &&& is_numeral(bits[1], flags.is_default_constructible as nat)
    &&& is_numeral(bits[2], flags.is_trivially_destructible as nat)
    &&& is_numeral(bits[3], flags.is_trivially_copyable as nat)
    &&& is_numeral(bits[4], flags.is_trivially_default_constructible as nat)
}

/// What varies in a metadata table.
pub struct Table {
    pub directive: Seq<char>,
    pub bits: Seq<Seq<char>>,
    pub length: Seq<char>,
    pub hash: Seq<char>,
    pub magic: Seq<char>,
    pub version: Seq<char>,
    pub data: Seq<char>,
}

/// Whether `text` is the metadata table with these texts in it.
pub open spec fn tabulates(text: Seq<char>, table: Table) -> bool {
    text == table.directive + METADATA_OPEN@ + table.bits[0]
        + ") |\n        (std::is_default_constructible<T>::value << "@ + table.bits[1]
        + TRIVIAL_BITS@ + table.bits[2] + ") |\n        (std::is_trivially_copyable<T>::value << "@
        + table.bits[3] + ") |\n        (std::is_trivially_default_constructible<T>::value << "@
        + table.bits[4] + METADATA_TYPES@ + table.length + "];\n};\n\nMetaData metadata_"@
        + table.hash + " = {\n    { "@ + table.magic + " },\n    \""@ + table.version
        + "\",\n    0xffef,\n    "@ + table.length + ",\n    { "@ + table.data
        + " }\n};\n\n} // namespace rustcpp\n"@
}

/// Whether `text` is a metadata table for `protocol` with these entries: it has all bytes of the
/// magic, the version, the number of the entries, twice, and all the entries in order.
pub open spec fn is_metadata(
    text: Seq<char>,
    entries: Seq<Seq<char>>,
    protocol: ProtocolView,
    origin: OriginView,
) -> bool {
    exists|table: Table| #[trigger]
        tabulates(text, table) && is_line_directive(table.directive, origin.metadata, origin.file)
            && write_the_flags(table.bits, protocol.flags) && is_numeral(
            table.length,
            entries.len(),
        ) && is_numeral(table.hash, protocol.file_hash as nat) && is_byte_list(
            table.magic,
            protocol.magic,
        ) && table.version == protocol.version && lists(table.data, entries, ", "@)
}

proof fn metadata_tabulates(
    entries: Seq<Seq<char>>,
    protocol: ProtocolView,
    origin: OriginView,
)
    ensures
        is_metadata(metadata_text(entries, protocol, origin), entries, protocol, origin),
{
    let flags = protocol.flags;
    let table = Table {
        directive: line_directive_text(origin.metadata, origin.file),
        bits: seq![
            decimal(flags.is_copy_constructible as nat),
            decimal(flags.is_default_constructible as nat),
            decimal(flags.is_trivially_destructible as nat),
            decimal(flags.is_trivially_copyable as nat),
            decimal(flags.is_trivially_default_constructible as nat),
        ],
        length: decimal(entries.len()),
        hash: decimal(protocol.file_hash as nat),
        magic: magic_text(protocol.magic),
        version: protocol.version,
        data: joined(entries, ", "@),
    };
    line_directives_direct(origin.metadata, origin.file);
    a_numeral_reads_back(flags.is_copy_constructible as nat);
    a_numeral_reads_back(flags.is_default_constructible as nat);
    a_numeral_reads_back(flags.is_trivially_destructible as nat);
    a_numeral_reads_back(flags.is_trivially_copyable as nat);
    a_numeral_reads_back(flags.is_trivially_default_constructible as nat);
    a_numeral_reads_back(entries.len());
    a_numeral_reads_back(protocol.file_hash as nat);
    the_magic_reads_back(protocol.magic);
    a_joined_list_holds_its_parts(entries, ", "@);
    assert(tabulates(metadata_text(entries, protocol, origin), table));
}

/// What the last part of a source is made of.
pub struct Closing {
    /// The C++ of the classes.
    pub class_texts: Seq<Seq<char>>,
    /// The metadata table.
    pub table: Seq<char>,
    /// The places of the closures that are described.
    pub order: Seq<int>,
    /// The entries of each of them.
    pub closure_entries: Seq<Seq<Seq<char>>>,
    pub class_entries: Seq<Seq<char>>,
}

/// The last part of a source is the C++ of every class, in order, then the metadata table. The
/// table describes every type that crosses the language border: the result and the captured
/// variables of each closure that was not met before, then each class.
pub proof fn the_source_closes(
    declarations: DeclarationsView,
    protocol: ProtocolView,
    origin: OriginView,
) -> (found: Closing)
    ensures
        library_parts(declarations, protocol, origin).last().text == found.class_texts.flatten()
            + found.table,
        are_class_texts(found.class_texts, declarations.classes),
        picks_the_new(found.order, declarations.closures),
        describe_the_new(found.closure_entries, declarations.closures, found.order),
        are_class_entries(found.class_entries, declarations.classes),
        is_metadata(
            found.table,
            found.closure_entries.flatten() + found.class_entries,
            protocol,
            origin,
        ),
{
    let closures = declarations.closures;
    let classes = declarations.classes;
    let class_texts = classes_are_served(classes, classes.len());
    assert(classes.take(classes.len() as int) =~= classes);
    new_places_pick(closures, closures.len());
    let groups = entries_in_places(closures, closures.len());
    let class_entries = classes_entries(classes);
    assert forall|i: int| 0 <= i < classes.len() implies is_type_entry(
        #[trigger] class_entries[i],
        classes[i].name_hash,
        classes[i].cpp,
    ) by {
        type_entries_describe(classes[i].name_hash, classes[i].cpp);
    }
    metadata_tabulates(all_entries(declarations), protocol, origin);
    Closing {
        class_texts,
        table: metadata_text(all_entries(declarations), protocol, origin),
        order: new_places(closures, closures.len()),
        closure_entries: groups,
        class_entries,
    }
}

/// Whether `text` is the table of the callbacks with these texts in it.
pub open spec fn holds_the_callbacks(
    text: Seq<char>,
    directive: Seq<char>,
    hash: Seq<char>,
    count: Seq<char>,
) -> bool {
    text == directive + CALLBACK_TABLE_OPEN@ + hash + "["@ + count + "])() = {};\n}\n        "@
}

/// Whether `text` is a table for `count` callbacks.
pub open spec fn is_callback_table(
    text: Seq<char>,
    count: u32,
    protocol: ProtocolView,
    origin: OriginView,
) -> bool {
    exists|directive: Seq<char>, hash: Seq<char>, numeral: Seq<char>| #[trigger]
        holds_the_callbacks(text, directive, hash, numeral) && is_line_directive(
            directive,
            origin.callback_table,
            origin.file,
        ) && is_numeral(hash, protocol.file_hash as nat) && is_numeral(numeral, count as nat)
}

/// The first part of a source is the helpers, then a table for all callbacks if and only if there
/// are any, then the snippets as they are.
pub proof fn the_source_opens(
    declarations: DeclarationsView,
    protocol: ProtocolView,
    origin: OriginView,
) -> (table: Seq<char>)
    ensures
        library_parts(declarations, protocol, origin)[0].text == INTERNAL_CPP_STRUCTS@ + table
            + declarations.snippets + "\n\n"@,
        if declarations.callbacks_count > 0 {
            is_callback_table(table, declarations.callbacks_count, protocol, origin)
        } else {
            table.len() == 0
        },
{
    let count = declarations.callbacks_count;
    if count > 0 {
        let table = callback_table_text(count, protocol, origin);
        let directive = line_directive_text(origin.callback_table, origin.file);
        line_directives_direct(origin.callback_table, origin.file);
        a_numeral_reads_back(protocol.file_hash as nat);
        a_numeral_reads_back(count as nat);
        assert(holds_the_callbacks(
            table,
            directive,
            decimal(protocol.file_hash as nat),
            decimal(count as nat),
        ));
        table
    } else {
        assert(INTERNAL_CPP_STRUCTS@ + Seq::<char>::empty() =~= INTERNAL_CPP_STRUCTS@);
        Seq::empty()
    }
}

proof fn parts_flatten(parts: Seq<PartView>)
    ensures
        all_text(parts) == parts.map_values(|part: PartView| part.text).flatten(),
        all_warnings(parts) == parts.map_values(|part: PartView| part.warnings).flatten(),
    decreases parts.len(),
{
    let texts = parts.map_values(|part: PartView| part.text);
    let warnings = parts.map_values(|part: PartView| part.warnings);
    if parts.len() > 0 {
        let before = parts.drop_last();
        let texts_before = before.map_values(|part: PartView| part.text);
        let warnings_before = before.map_values(|part: PartView| part.warnings);
        parts_flatten(before);
        assert(texts =~= texts_before.push(parts.last().text));
        assert(warnings =~= warnings_before.push(parts.last().warnings));
        texts_before.lemma_flatten_push(parts.last().text);
        warnings_before.lemma_flatten_push(parts.last().warnings);
    }
}

/// A source is the texts of its parts one after the other, and the warnings about it are those of
/// its parts one after the other.
pub proof fn a_source_is_its_parts(
    declarations: DeclarationsView,
    protocol: ProtocolView,
    origin: OriginView,
)
    ensures
        library_text(declarations, protocol, origin) == library_parts(
            declarations,
            protocol,
            origin,
        ).map_values(|part: PartView| part.text).flatten(),
        collision_warnings(declarations.closures, declarations.closures.len()) == library_parts(
            declarations,
            protocol,
            origin,
        ).map_values(|part: PartView| part.warnings).flatten(),
        forall|parts: Seq<PartView>| #[trigger]
            all_text(parts) == parts.map_values(|part: PartView| part.text).flatten(),
        forall|parts: Seq<PartView>| #[trigger]
            all_warnings(parts) == parts.map_values(|part: PartView| part.warnings).flatten(),
{
    the_parts_make_the_library(declarations, protocol, origin);
    assert forall|parts: Seq<PartView>| #[trigger] all_text(parts) == parts.map_values(
        |part: PartView| part.text,
    ).flatten() by {
        parts_flatten(parts);
    }
    assert forall|parts: Seq<PartView>| #[trigger] all_warnings(parts) == parts.map_values(
        |part: PartView| part.warnings,
    ).flatten() by {
        parts_flatten(parts);
    }
}

proof fn occurs_through(part: Seq<char>, middle: Seq<char>, whole: Seq<char>)
    requires
        occurs_in(part, middle),
        occurs_in(middle, whole),
    ensures
        occurs_in(part, whole),
{
    let (b, a) = choose|b: Seq<char>, a: Seq<char>| middle == #[trigger] (b + part + a);
    let (before, after) = choose|before: Seq<char>, after: Seq<char>|
        whole == #[trigger] (before + middle + after);
    assert(whole =~= (before + b) + part + (a + after));
}

proof fn occurs_between(before: Seq<char>, part: Seq<char>, after: Seq<char>)
    ensures
        occurs_in(part, before + part + after),
{
}

proof fn each_text_occurs(texts: Seq<Seq<char>>, i: int)
    requires
        0 <= i < texts.len(),
    ensures
        occurs_in(texts[i], texts.flatten()),
    decreases texts.len(),
{
    let before = texts.drop_last();
    let none = Seq::<char>::empty();
    assert(texts =~= before.push(texts.last()));
    before.lemma_flatten_push(texts.last());
    if i == texts.len() - 1 {
        occurs_between(before.flatten(), texts.last(), none);
        assert(before.flatten() + texts.last() + none =~= texts.flatten());
    } else {
        each_text_occurs(before, i);
        occurs_between(none, before.flatten(), texts.last());
        assert(none + before.flatten() + texts.last() =~= texts.flatten());
        occurs_through(texts[i], before.flatten(), texts.flatten());
    }
}

proof fn each_part_occurs(
    declarations: DeclarationsView,
    protocol: ProtocolView,
    origin: OriginView,
    i: int,
)
    requires
        0 <= i < library_parts(declarations, protocol, origin).len(),
    ensures
        occurs_in(
            library_parts(declarations, protocol, origin)[i].text,
            library_text(declarations, protocol, origin),
        ),
{
    a_source_is_its_parts(declarations, protocol, origin);
    each_text_occurs(
        library_parts(declarations, protocol, origin).map_values(|part: PartView| part.text),
        i,
    );
}

/// The C++ of every closure that was not met before is in the source.
pub proof fn every_new_closure_is_in_the_source(
    declarations: DeclarationsView,
    protocol: ProtocolView,
    origin: OriginView,
    i: int,
) -> (text: Seq<char>)
    requires
        0 <= i < declarations.closures.len(),
        !was_met(declarations.closures, i),
    ensures
        is_closure_text(text, declarations.closures[i], origin),
        occurs_in(text, library_text(declarations, protocol, origin)),
{
    let order = each_new_closure_has_a_part(declarations, protocol, origin);
    assert(order.contains(i));
    let k = choose|k: int| 0 <= k < order.len() && order[k] == i;
    let part = library_parts(declarations, protocol, origin)[k + 1];
    each_part_occurs(declarations, protocol, origin, k + 1);
    part.text
}

/// Every class, wherever it stands, has its helper in the source. If it derives `PartialEq`, the
/// definition of its equality is in the source too, and if it derives `PartialOrd`, that of its
/// order.
pub proof fn every_class_is_in_the_source(
    declarations: DeclarationsView,
    protocol: ProtocolView,
    origin: OriginView,
    i: int,
) -> (hash: Seq<char>)
    requires
        0 <= i < declarations.classes.len(),
    ensures
        ({
            let class = declarations.classes[i];
            let source = library_text(declarations, protocol, origin);
            &&& is_numeral(hash, class.name_hash as nat)
            &&& occurs_in(class_helper(class, hash), source)
            &&& class.derived_traits.contains("PartialEq"@) ==> occurs_in(
                class_equality(class, hash),
                source,
            )
            &&& class.derived_traits.contains("PartialOrd"@) ==> occurs_in(
                class_order(class, hash),
                source,
            )
        }),
{
    let class = declarations.classes[i];
    let source = library_text(declarations, protocol, origin);
    let parts = library_parts(declarations, protocol, origin);
    let none = Seq::<char>::empty();
    let found = the_source_closes(declarations, protocol, origin);
    let text = found.class_texts[i];
    let hash = choose|hash: Seq<char>| #[trigger]
        serves_the_class(text, class, hash) && is_numeral(hash, class.name_hash as nat);
    each_text_occurs(found.class_texts, i);
    let classes = found.class_texts.flatten();
    occurs_between(none, classes, found.table);
    assert(none + classes + found.table =~= parts.last().text);
    occurs_through(text, classes, parts.last().text);
    each_part_occurs(declarations, protocol, origin, parts.len() - 1);
    occurs_through(text, parts.last().text, source);
    let helper = class_helper(class, hash);
    let equality = if class.derived_traits.contains("PartialEq"@) {
        class_equality(class, hash)
    } else {
        none
    };
    let order = if class.derived_traits.contains("PartialOrd"@) {
        class_order(class, hash)
    } else {
        none
    };
    occurs_between(none, helper, equality + order);
    assert(none + helper + (equality + order) =~= text);
    occurs_through(helper, text, source);
    occurs_between(helper, equality, order);
    occurs_through(equality, text, source);
    occurs_between(helper + equality, order, none);
    assert(helper + equality + order + none =~= text);
    occurs_through(order, text, source);
    hash
}

/// The source ends with a metadata table that describes the types of all declarations.
pub proof fn the_metadata_ends_the_source(
    declarations: DeclarationsView,
    protocol: ProtocolView,
    origin: OriginView,
) -> (found: (Seq<char>, Closing))
    ensures
        library_text(declarations, protocol, origin) == found.0 + found.1.table,
        picks_the_new(found.1.order, declarations.closures),
        describe_the_new(found.1.closure_entries, declarations.closures, found.1.order),
        are_class_entries(found.1.class_entries, declarations.classes),
        is_metadata(
            found.1.table,
            found.1.closure_entries.flatten() + found.1.class_entries,
            protocol,
            origin,
        ),
{
    let parts = library_parts(declarations, protocol, origin);
    let texts = parts.map_values(|part: PartView| part.text);
    let found = the_source_closes(declarations, protocol, origin);
    a_source_is_its_parts(declarations, protocol, origin);
    let before = texts.drop_last();
    assert(texts =~= before.push(parts.last().text));
    before.lemma_flatten_push(parts.last().text);
    let front = before.flatten() + found.class_texts.flatten();
    assert(texts.flatten() =~= front + found.table);
    (front, found)
}

/// One more class changes nothing of what comes before the classes, and the texts of the classes
/// before it stay as they are: what one class gets does not depend on the others.
pub proof fn a_further_class_only_adds(
    declarations: DeclarationsView,
    protocol: ProtocolView,
    origin: OriginView,
    class: ClassView,
) -> (found: (Seq<char>, Seq<char>, Seq<char>, Seq<char>))
    ensures
        ({
            let more = DeclarationsView {
                classes: declarations.classes.push(class),
                ..declarations
            };
            let before = library_parts(declarations, protocol, origin);
            let after = library_parts(more, protocol, origin);
            let (classes, text, table, longer_table) = found;
            &&& after.drop_last() == before.drop_last()
            &&& is_class_text(text, class)
            &&& before.last().text == classes + table
            &&& after.last().text == classes + text + longer_table
        }),
{
    let more = DeclarationsView { classes: declarations.classes.push(class), ..declarations };
    let n = declarations.classes.len();
    classes_of_a_prefix(declarations.classes, class, n);
    class_texts_serve(class);
    assert(library_parts(more, protocol, origin).drop_last() =~= library_parts(
        declarations,
        protocol,
        origin,
    ).drop_last());
    (
        classes_text(declarations.classes, n),
        class_text(class),
        metadata_text(all_entries(declarations), protocol, origin),
        metadata_text(all_entries(more), protocol, origin),
    )
}

proof fn classes_of_a_prefix(classes: Seq<ClassView>, extra: ClassView, n: nat)
    requires
        n <= classes.len(),
    ensures
        classes_text(classes.push(extra), n) == classes_text(classes, n),
    decreases n,
{
    if n > 0 {
        classes_of_a_prefix(classes, extra, (n - 1) as nat);
    }
}

} // verus!
