//! The C++ source that is generated from the `cpp` declarations of a crate.
//!
//! The text is the fixed helpers, the callback table, the snippets, one function per distinct
//! closure, the helpers of the classes, and a metadata table with the size, the alignment and the
//! flags of every type that crosses the language border. [`library_text`] says what the text is.

use crate::declarations::{
    Capture, CaptureView, Class, ClassView, Closure, ClosureView, Declarations, DeclarationsView,
};
use crate::generate_laws::the_parts_make_the_library;
use crate::templates::{
    CALLBACK_TABLE_OPEN, INTERNAL_CPP_STRUCTS, METADATA_OPEN, METADATA_TYPES, TRIVIAL_BITS,
    VALUE_CLOSURE_OPEN, VOID_CLOSURE_OPEN,
};
use crate::text::{
    decimal, decimal_string, escape_backslashes, escaped, join, joined, views,
};
use crate::warning::{warning_lines, warnln_impl};
use std::collections::hash_map::Entry;
use std::collections::HashMap;
use vstd::prelude::*;

verus! {

/// Positions of the type traits in the flags word of a metadata entry.
pub struct FlagBits {
    pub is_copy_constructible: u32,
    pub is_default_constructible: u32,
    pub is_trivially_destructible: u32,
    pub is_trivially_copyable: u32,
    pub is_trivially_default_constructible: u32,
}

/// What the generated source and the reader of its metadata have agreed on.
pub struct Protocol {
    /// Hash that tells this build from others.
    pub file_hash: u64,
    /// Byte sequence by which the metadata is found in a binary.
    pub magic: Vec<u8>,
    /// Version of the metadata format.
    pub version: String,
    pub flags: FlagBits,
}

/// The model of a [`Protocol`].
#[verifier::ext_equal]
pub struct ProtocolView {
    pub file_hash: u64,
    pub magic: Seq<u8>,
    pub version: Seq<char>,
    pub flags: FlagBits,
}

impl View for Protocol {
    type V = ProtocolView;

    open spec fn view(&self) -> ProtocolView {
        ProtocolView {
            file_hash: self.file_hash,
            magic: self.magic@,
            version: self.version@,
            flags: self.flags,
        }
    }
}

/// The place that compilers report for text that comes from a template: a source file, and in it
/// one line for each template.
pub struct Origin {
    pub file: String,
    pub callback_table: u32,
    pub void_closure: u32,
    pub value_closure: u32,
    pub metadata: u32,
}

/// The model of an [`Origin`].
#[verifier::ext_equal]
pub struct OriginView {
    pub file: Seq<char>,
    pub callback_table: u32,
    pub void_closure: u32,
    pub value_closure: u32,
    pub metadata: u32,
}

impl View for Origin {
    type V = OriginView;

    open spec fn view(&self) -> OriginView {
        OriginView {
            file: self.file@,
            callback_table: self.callback_table,
            void_closure: self.void_closure,
            value_closure: self.value_closure,
            metadata: self.metadata,
        }
    }
}

/// The directive that makes the next line count as line `line` of `file`.
pub open spec fn line_directive_text(line: u32, file: Seq<char>) -> Seq<char> {
    "#line "@ + decimal(line as nat) + " \""@ + escaped(file) + "\"\n"@
}

fn line_directive(line: u32, file: &str) -> (text: String)
    ensures
        text@ == line_directive_text(line, file@),
{
    let mut text = "#line ".to_owned();
    text.append(decimal_string(line as u64).as_str());
    text.append(" \"");
    text.append(escape_backslashes(file).as_str());
    text.append("\"\n");
    text
}

/// The table of the callbacks into Rust.
pub open spec fn callback_table_text(
    count: u32,
    protocol: ProtocolView,
    origin: OriginView,
) -> Seq<char> {
    line_directive_text(origin.callback_table, origin.file)
        + CALLBACK_TABLE_OPEN@ + decimal(protocol.file_hash as nat) + "["@
        + decimal(count as nat) + "])() = {};\n}\n        "@
}

fn callback_table(count: u32, protocol: &Protocol, origin: &Origin) -> (text: String)
    ensures
        text@ == callback_table_text(count, protocol@, origin@),
{
    let mut text = line_directive(origin.callback_table, origin.file.as_str());
    text.append(CALLBACK_TABLE_OPEN);
    text.append(decimal_string(protocol.file_hash).as_str());
    text.append("[");
    text.append(decimal_string(count as u64).as_str());
    text.append("])() = {};\n}\n        ");
    text
}

/// A captured variable as a C++ parameter: by reference, and constant unless it is mutable.
pub open spec fn param_text(capture: CaptureView) -> Seq<char> {
    if capture.mutable {
        capture.cpp + " & "@ + capture.name
    } else {
        capture.cpp + " const& "@ + capture.name
    }
}

fn param(capture: &Capture) -> (text: String)
    ensures
        text@ == param_text(capture@),
{
    let mut text = capture.cpp.clone();
    if capture.mutable {
        text.append(" & ");
    } else {
        text.append(" const& ");
    }
    text.append(capture.name.as_str());
    text
}

/// The parameter list of a closure.
pub open spec fn params_text(captures: Seq<CaptureView>) -> Seq<char> {
    joined(captures.map_values(|c: CaptureView| param_text(c)), ", "@)
}

fn params(captures: &Vec<Capture>) -> (text: String)
    ensures
        text@ == params_text(captures@.map_values(|c: Capture| c@)),
{
    let mut parts: Vec<String> = Vec::new();
    let mut i: usize = 0;
    while i < captures.len()
        invariant
            i <= captures.len(),
            parts.len() == i,
            forall|j: int| 0 <= j < i ==> (#[trigger] parts[j])@ == param_text(captures[j]@),
        decreases captures.len() - i,
    {
        parts.push(param(&captures[i]));
        i += 1;
    }
    assert(views(parts@) =~= captures@.map_values(|c: Capture| c@).map_values(
        |c: CaptureView| param_text(c),
    ));
    join(&parts, ", ")
}

/// The argument list with which a closure's parameters are passed on.
pub open spec fn args_text(captures: Seq<CaptureView>) -> Seq<char> {
    joined(captures.map_values(|c: CaptureView| c.name), ", "@)
}

fn args(captures: &Vec<Capture>) -> (text: String)
    ensures
        text@ == args_text(captures@.map_values(|c: Capture| c@)),
{
    let mut parts: Vec<String> = Vec::new();
    let mut i: usize = 0;
    while i < captures.len()
        invariant
            i <= captures.len(),
            parts.len() == i,
            forall|j: int| 0 <= j < i ==> (#[trigger] parts[j])@ == captures[j].name@,
        decreases captures.len() - i,
    {
        parts.push(captures[i].name.clone());
        i += 1;
    }
    assert(views(parts@) =~= captures@.map_values(|c: Capture| c@).map_values(
        |c: CaptureView| c.name,
    ));
    join(&parts, ", ")
}

/// Whether the closure returns nothing.
pub open spec fn is_void(closure: ClosureView) -> bool {
    closure.sig.cpp == "void"@
}

/// The C++ function of a closure without a result.
pub open spec fn void_closure_text(closure: ClosureView, origin: OriginView) -> Seq<char> {
    line_directive_text(origin.void_closure, origin.file) + VOID_CLOSURE_OPEN@
        + closure.extern_name + "("@ + params_text(closure.sig.captures) + ") {\n"@
        + closure.body_str + "\n}\n}\n"@
}

fn void_closure(closure: &Closure, origin: &Origin) -> (text: String)
    ensures
        text@ == void_closure_text(closure@, origin@),
{
    let mut text = line_directive(origin.void_closure, origin.file.as_str());
    text.append(VOID_CLOSURE_OPEN);
    text.append(closure.extern_name.as_str());
    text.append("(");
    text.append(params(&closure.sig.captures).as_str());
    text.append(") {\n");
    text.append(closure.body_str.as_str());
    text.append("\n}\n}\n");
    text
}

/// What separates the parameters of a closure from the result pointer that follows them.
pub open spec fn comma_text(params: Seq<char>) -> Seq<char> {
    if params.len() == 0 {
        ""@
    } else {
        ","@
    }
}

/// The C++ functions of a closure with a result: one that computes it, and one that has it
/// constructed in place.
pub open spec fn value_closure_text(closure: ClosureView, origin: OriginView) -> Seq<char> {
    let params = params_text(closure.sig.captures);
    line_directive_text(origin.value_closure, origin.file) + VALUE_CLOSURE_OPEN@ + closure.sig.cpp
        + " "@ + closure.extern_name + "_impl("@ + params + ") {\n"@ + closure.body_str
        + "\n}\nextern \"C\" {\nvoid "@ + closure.extern_name + "("@ + params + comma_text(params)
        + " void* __result) {\n    ::new(__result) ("@ + closure.sig.cpp + ")("@
        + closure.extern_name + "_impl("@ + args_text(closure.sig.captures) + "));\n}\n}\n"@
}

fn value_closure(closure: &Closure, origin: &Origin) -> (text: String)
    ensures
        text@ == value_closure_text(closure@, origin@),
{
    let params = params(&closure.sig.captures);
    let comma = if params.as_str().is_empty() {
        ""
    } else {
        ","
    };
    let mut text = line_directive(origin.value_closure, origin.file.as_str());
    text.append(VALUE_CLOSURE_OPEN);
    text.append(closure.sig.cpp.as_str());
    text.append(" ");
    text.append(closure.extern_name.as_str());
    text.append("_impl(");
    text.append(params.as_str());
    text.append(") {\n");
    text.append(closure.body_str.as_str());
    text.append("\n}\nextern \"C\" {\nvoid ");
    text.append(closure.extern_name.as_str());
    text.append("(");
    text.append(params.as_str());
    text.append(comma);
    text.append(" void* __result) {\n    ::new(__result) (");
    text.append(closure.sig.cpp.as_str());
    text.append(")(");
    text.append(closure.extern_name.as_str());
    text.append("_impl(");
    text.append(args(&closure.sig.captures).as_str());
    text.append("));\n}\n}\n");
    text
}

/// The C++ text of a closure.
pub open spec fn closure_text(closure: ClosureView, origin: OriginView) -> Seq<char> {
    if is_void(closure) {
        void_closure_text(closure, origin)
    } else {
        value_closure_text(closure, origin)
    }
}

fn closure_functions(closure: &Closure, origin: &Origin) -> (text: String)
    ensures
        text@ == closure_text(closure@, origin@),
{
    if returns_void(closure) {
        void_closure(closure, origin)
    } else {
        value_closure(closure, origin)
    }
}

fn returns_void(closure: &Closure) -> (void: bool)
    ensures
        void == is_void(closure@),
{
    closure.sig.cpp == "void".to_owned()
}

/// The metadata of a closure without a result.
pub open spec fn void_entry_text(hash: u64, callback_offset: u32) -> Seq<char> {
    "{"@ + decimal(hash as nat) + "ull, 0, 1, "@ + decimal(callback_offset as nat) + "ull << 32}"@
}

fn void_entry(hash: u64, callback_offset: u32) -> (text: String)
    ensures
        text@ == void_entry_text(hash, callback_offset),
{
    let mut text = "{".to_owned();
    text.append(decimal_string(hash).as_str());
    text.append("ull, 0, 1, ");
    text.append(decimal_string(callback_offset as u64).as_str());
    text.append("ull << 32}");
    text
}

/// The start of the metadata of a type, up to its flags.
pub open spec fn entry_start_text(hash: u64, cpp: Seq<char>) -> Seq<char> {
    "{\n                "@ + decimal(hash as nat) + "ull,\n                sizeof("@ + cpp
        + "),\n                rustcpp::AlignOf<"@ + cpp
        + ">::value,\n                rustcpp::Flags<"@ + cpp + ">::value"@
}

fn entry_start(hash: u64, cpp: &str) -> (text: String)
    ensures
        text@ == entry_start_text(hash, cpp@),
{
    let mut text = "{\n                ".to_owned();
    text.append(decimal_string(hash).as_str());
    text.append("ull,\n                sizeof(");
    text.append(cpp);
    text.append("),\n                rustcpp::AlignOf<");
    text.append(cpp);
    text.append(">::value,\n                rustcpp::Flags<");
    text.append(cpp);
    text.append(">::value");
    text
}

/// The metadata of a closure with a result, which carries the callback offset too.
pub open spec fn value_entry_text(hash: u64, cpp: Seq<char>, callback_offset: u32) -> Seq<char> {
    entry_start_text(hash, cpp) + " | "@ + decimal(callback_offset as nat)
        + "ull << 32\n            }"@
}

fn value_entry(hash: u64, cpp: &str, callback_offset: u32) -> (text: String)
    ensures
        text@ == value_entry_text(hash, cpp@, callback_offset),
{
    let mut text = entry_start(hash, cpp);
    text.append(" | ");
    text.append(decimal_string(callback_offset as u64).as_str());
    text.append("ull << 32\n            }");
    text
}

/// The metadata of a captured type or of a class.
pub open spec fn type_entry_text(hash: u64, cpp: Seq<char>) -> Seq<char> {
    entry_start_text(hash, cpp) + "\n            }"@
}

fn type_entry(hash: u64, cpp: &str) -> (text: String)
    ensures
        text@ == type_entry_text(hash, cpp@),
{
    let mut text = entry_start(hash, cpp);
    text.append("\n            }");
    text
}

/// The metadata entry of a closure itself.
pub open spec fn head_entry_text(closure: ClosureView) -> Seq<char> {
    if is_void(closure) {
        void_entry_text(closure.name_hash, closure.callback_offset)
    } else {
        value_entry_text(closure.name_hash, closure.sig.cpp, closure.callback_offset)
    }
}

/// The metadata entries of a closure: its own, then one for each capture.
pub open spec fn closure_entries(closure: ClosureView) -> Seq<Seq<char>> {
    seq![head_entry_text(closure)] + closure.sig.captures.map_values(
        |c: CaptureView| type_entry_text(closure.name_hash, c.cpp),
    )
}

fn push_closure_entries(entries: &mut Vec<String>, closure: &Closure)
    ensures
        views(final(entries)@) == views(old(entries)@) + closure_entries(closure@),
{
    let ghost before = views(entries@);
    if returns_void(closure) {
        entries.push(void_entry(closure.name_hash, closure.callback_offset));
    } else {
        entries.push(
            value_entry(closure.name_hash, closure.sig.cpp.as_str(), closure.callback_offset),
        );
    }
    assert(views(entries@) =~= before + closure_entries(closure@).take(1));
    let mut i: usize = 0;
    while i < closure.sig.captures.len()
        invariant
            i <= closure.sig.captures.len(),
            views(entries@) == before + closure_entries(closure@).take(1 + i),
        decreases closure.sig.captures.len() - i,
    {
        let ghost so_far = views(entries@);
        let entry = type_entry(closure.name_hash, closure.sig.captures[i].cpp.as_str());
        let ghost text = entry@;
        entries.push(entry);
        i += 1;
        assert(views(entries@) =~= so_far.push(text));
        assert(closure_entries(closure@)[i as int] == text);
        assert(views(entries@) =~= before + closure_entries(closure@).take(1 + i));
    }
    assert(closure_entries(closure@).take(1 + i) =~= closure_entries(closure@));
}

/// Whether the closure at `j` is the first one whose hash is `hash`.
pub open spec fn first_use(closures: Seq<ClosureView>, j: int, hash: u64) -> bool {
    &&& 0 <= j < closures.len()
    &&& closures[j].name_hash == hash
    &&& forall|k: int| 0 <= k < j ==> (#[trigger] closures[k]).name_hash != hash
}

/// Whether the closure at `i` repeats the first one with its hash: same hash, same signature. Such
/// a closure adds nothing to the generated text.
pub open spec fn is_repeat(closures: Seq<ClosureView>, i: int) -> bool {
    exists|j: int| #[trigger]
        first_use(closures, j, closures[i].name_hash) && j < i && closures[j].sig
            == closures[i].sig
}

/// Whether the closure at `i` has the hash of an earlier closure and another signature than the
/// first one with that hash.
pub open spec fn is_collision(closures: Seq<ClosureView>, i: int) -> bool {
    exists|j: int| #[trigger]
        first_use(closures, j, closures[i].name_hash) && j < i && closures[j].sig
            != closures[i].sig
}

/// The text of the first `n` closures, repeats left out.
pub open spec fn closures_text(closures: Seq<ClosureView>, n: nat, origin: OriginView) -> Seq<char>
    decreases n,
{
    if n == 0 {
        Seq::empty()
    } else if is_repeat(closures, n - 1) {
        closures_text(closures, (n - 1) as nat, origin)
    } else {
        closures_text(closures, (n - 1) as nat, origin) + closure_text(closures[n - 1], origin)
    }
}

/// The metadata entries of the first `n` closures, repeats left out.
pub open spec fn closures_entries(closures: Seq<ClosureView>, n: nat) -> Seq<Seq<char>>
    decreases n,
{
    if n == 0 {
        Seq::empty()
    } else if is_repeat(closures, n - 1) {
        closures_entries(closures, (n - 1) as nat)
    } else {
        closures_entries(closures, (n - 1) as nat) + closure_entries(closures[n - 1])
    }
}

/// The warnings about the first `n` closures: one for each hash collision.
pub open spec fn collision_warnings(closures: Seq<ClosureView>, n: nat) -> Seq<Seq<char>>
    decreases n,
{
    if n == 0 {
        Seq::empty()
    } else if is_collision(closures, n - 1) {
        collision_warnings(closures, (n - 1) as nat) + warning_lines("Hash collision detected."@)
    } else {
        collision_warnings(closures, (n - 1) as nat)
    }
}

/// A part of the work of bringing out a generated source: the warnings are printed, then the text
/// is written after what was written before.
pub struct Part {
    /// Output lines for cargo.
    pub warnings: Vec<String>,
    pub text: String,
}

/// The model of a [`Part`].
#[verifier::ext_equal]
pub struct PartView {
    pub warnings: Seq<Seq<char>>,
    pub text: Seq<char>,
}

impl View for Part {
    type V = PartView;

    open spec fn view(&self) -> PartView {
        PartView { warnings: views(self.warnings@), text: self.text@ }
    }
}

/// The models of a list of parts.
pub open spec fn part_views(parts: Seq<Part>) -> Seq<PartView> {
    parts.map_values(|p: Part| p@)
}

/// A part without warnings.
pub open spec fn quiet_part(text: Seq<char>) -> PartView {
    PartView { warnings: Seq::empty(), text }
}

/// The text of all parts.
pub open spec fn all_text(parts: Seq<PartView>) -> Seq<char>
    decreases parts.len(),
{
    if parts.len() == 0 {
        Seq::empty()
    } else {
        all_text(parts.drop_last()) + parts.last().text
    }
}

/// The warnings of all parts.
pub open spec fn all_warnings(parts: Seq<PartView>) -> Seq<Seq<char>>
    decreases parts.len(),
{
    if parts.len() == 0 {
        Seq::empty()
    } else {
        all_warnings(parts.drop_last()) + parts.last().warnings
    }
}

/// The part of the closure at `i`: its text, after the warning about it if it is in collision.
pub open spec fn closure_part(closures: Seq<ClosureView>, i: int, origin: OriginView) -> PartView {
    PartView {
        warnings: if is_collision(closures, i) {
            warning_lines("Hash collision detected."@)
        } else {
            Seq::empty()
        },
        text: closure_text(closures[i], origin),
    }
}

/// The parts of the first `n` closures, repeats left out.
pub open spec fn closures_parts(
    closures: Seq<ClosureView>,
    n: nat,
    origin: OriginView,
) -> Seq<PartView>
    decreases n,
{
    if n == 0 {
        Seq::empty()
    } else if is_repeat(closures, n - 1) {
        closures_parts(closures, (n - 1) as nat, origin)
    } else {
        closures_parts(closures, (n - 1) as nat, origin).push(
            closure_part(closures, n - 1, origin),
        )
    }
}

fn push_part(parts: &mut Vec<Part>, part: Part)
    ensures
        part_views(final(parts)@) == part_views(old(parts)@).push(part@),
{
    let ghost before = part_views(parts@);
    parts.push(part);
    assert(part_views(parts@) =~= before.push(part@));
}

fn generate_closures(
    closures: &Vec<Closure>,
    origin: &Origin,
    parts: &mut Vec<Part>,
) -> (entries: Vec<String>)
    ensures
        ({
            let all = closures@.map_values(|c: Closure| c@);
            &&& part_views(final(parts)@) == part_views(old(parts)@) + closures_parts(
                all,
                all.len(),
                origin@,
            )
            &&& views(entries@) == closures_entries(all, all.len())
        }),
{
    let ghost all = closures@.map_values(|c: Closure| c@);
    let ghost before = part_views(parts@);
    let mut entries: Vec<String> = Vec::new();
    // For each hash, where it was met first.
    let mut first: HashMap<u64, usize> = HashMap::new();
    assert(views(entries@) =~= Seq::empty());
    assert(before =~= before + closures_parts(all, 0, origin@));
    let mut i: usize = 0;
    while i < closures.len()
        invariant
            i <= closures.len(),
            all == closures@.map_values(|c: Closure| c@),
            forall|h: u64| #[trigger]
                first@.contains_key(h) ==> first@[h] < i && first_use(all, first@[h] as int, h),
            forall|j: int| 0 <= j < i ==> first@.contains_key((#[trigger] all[j]).name_hash),
            part_views(parts@) == before + closures_parts(all, i as nat, origin@),
            views(entries@) == closures_entries(all, i as nat),
        decreases closures.len() - i,
    {
        let closure = &closures[i];
        let ghost known = first@;
        let ghost hash = closure.name_hash;
        assert(all[i as int] == closure@);
        let mut repeat = false;
        let mut warnings: Vec<String> = Vec::new();
        assert(views(warnings@) =~= Seq::empty());
        match first.entry(closure.name_hash) {
            Entry::Occupied(e) => {
                let j: usize = *e.get();
                assert(known.contains_key(hash) && known[hash] == j);
                assert(first_use(all, j as int, all[i as int].name_hash));
                assert(all[j as int] == closures[j as int]@);
                if closures[j].sig.same(&closure.sig) {
                    repeat = true;
                    assert(all[j as int].sig == all[i as int].sig);
                } else {
                    assert(all[j as int].sig != all[i as int].sig);
                    warnings = warnln_impl("Hash collision detected.");
                }
            },
            Entry::Vacant(e) => {
                e.insert(i);
            },
        }
        assert(repeat == is_repeat(all, i as int));
        if !repeat {
            push_closure_entries(&mut entries, closure);
            let ghost so_far = part_views(parts@);
            let part = Part { warnings, text: closure_functions(closure, origin) };
            assert(part@ == closure_part(all, i as int, origin@));
            push_part(parts, part);
            assert(so_far.push(part@) =~= before + closures_parts(all, (i + 1) as nat, origin@));
        }
        i += 1;
    }
    entries
}

/// The functions that construct, copy and destroy a class. The line directive of the class comes
/// first, so that compilers report its declaration.
pub open spec fn class_helper_text(class: ClassView) -> Seq<char> {
    class.line + "RUST_CPP_CLASS_HELPER("@ + decimal(class.name_hash as nat) + ", "@ + class.cpp
        + ")\n"@
}

fn class_helper(class: &Class) -> (text: String)
    ensures
        text@ == class_helper_text(class@),
{
    let mut text = class.line.clone();
    text.append("RUST_CPP_CLASS_HELPER(");
    text.append(decimal_string(class.name_hash).as_str());
    text.append(", ");
    text.append(class.cpp.as_str());
    text.append(")\n");
    text
}

/// The function that tells whether two objects of a class are equal.
pub open spec fn class_equality_text(class: ClassView) -> Seq<char> {
    class.line + "extern \"C\" bool __cpp_equal_"@ + decimal(class.name_hash as nat) + "(const "@
        + class.cpp + " *a, const "@ + class.cpp + " *b) { return *a == *b; }\n"@
}

fn class_equality(class: &Class) -> (text: String)
    ensures
        text@ == class_equality_text(class@),
{
    let mut text = class.line.clone();
    text.append("extern \"C\" bool __cpp_equal_");
    text.append(decimal_string(class.name_hash).as_str());
    text.append("(const ");
    text.append(class.cpp.as_str());
    text.append(" *a, const ");
    text.append(class.cpp.as_str());
    text.append(" *b) { return *a == *b; }\n");
    text
}

/// The function that orders two objects of a class.
pub open spec fn class_order_text(class: ClassView) -> Seq<char> {
    class.line + "extern \"C\" bool __cpp_compare_"@ + decimal(class.name_hash as nat) + "(const "@
        + class.cpp + " *a, const "@ + class.cpp
        + " *b, int cmp) { return rustcpp::compare_helper(*a, *b, cmp); }\n"@
}

fn class_order(class: &Class) -> (text: String)
    ensures
        text@ == class_order_text(class@),
{
    let mut text = class.line.clone();
    text.append("extern \"C\" bool __cpp_compare_");
    text.append(decimal_string(class.name_hash).as_str());
    text.append("(const ");
    text.append(class.cpp.as_str());
    text.append(" *a, const ");
    text.append(class.cpp.as_str());
    text.append(" *b, int cmp) { return rustcpp::compare_helper(*a, *b, cmp); }\n");
    text
}

/// The helpers of a class: the equality and the order are there for the classes that derive
/// `PartialEq` and `PartialOrd`.
pub open spec fn class_text(class: ClassView) -> Seq<char> {
    let helper = class_helper_text(class);
    let with_equality = if class.derived_traits.contains("PartialEq"@) {
        helper + class_equality_text(class)
    } else {
        helper
    };
    if class.derived_traits.contains("PartialOrd"@) {
        with_equality + class_order_text(class)
    } else {
        with_equality
    }
}

fn class_functions(class: &Class) -> (text: String)
    ensures
        text@ == class_text(class@),
{
    let mut text = class_helper(class);
    if class.derives("PartialEq") {
        text.append(class_equality(class).as_str());
    }
    if class.derives("PartialOrd") {
        text.append(class_order(class).as_str());
    }
    text
}

/// The text of the first `n` classes.
pub open spec fn classes_text(classes: Seq<ClassView>, n: nat) -> Seq<char>
    decreases n,
{
    if n == 0 {
        Seq::empty()
    } else {
        classes_text(classes, (n - 1) as nat) + class_text(classes[n - 1])
    }
}

/// The metadata entries of the classes.
pub open spec fn classes_entries(classes: Seq<ClassView>) -> Seq<Seq<char>> {
    classes.map_values(|c: ClassView| type_entry_text(c.name_hash, c.cpp))
}

fn generate_classes(classes: &Vec<Class>, entries: &mut Vec<String>) -> (text: String)
    ensures
        ({
            let all = classes@.map_values(|c: Class| c@);
            &&& text@ == classes_text(all, all.len())
            &&& views(final(entries)@) == views(old(entries)@) + classes_entries(all)
        }),
{
    let ghost all = classes@.map_values(|c: Class| c@);
    let ghost before = views(entries@);
    let mut text = String::new();
    let mut i: usize = 0;
    assert(views(entries@) =~= before + classes_entries(all).take(0));
    while i < classes.len()
        invariant
            i <= classes.len(),
            all == classes@.map_values(|c: Class| c@),
            text@ == classes_text(all, i as nat),
            views(entries@) == before + classes_entries(all).take(i as int),
        decreases classes.len() - i,
    {
        let class = &classes[i];
        let ghost so_far = views(entries@);
        let entry = type_entry(class.name_hash, class.cpp.as_str());
        let ghost entry_text = entry@;
        entries.push(entry);
        text.append(class_functions(class).as_str());
        i += 1;
        assert(views(entries@) =~= so_far.push(entry_text));
        assert(classes_entries(all)[i - 1] == entry_text);
        assert(views(entries@) =~= before + classes_entries(all).take(i as int));
    }
    assert(classes_entries(all).take(i as int) =~= classes_entries(all));
    text
}

/// The bytes of `magic` as a C++ initializer list.
pub open spec fn magic_text(magic: Seq<u8>) -> Seq<char> {
    joined(magic.map_values(|b: u8| decimal(b as nat)), ", "@)
}

fn magic_list(magic: &Vec<u8>) -> (text: String)
    ensures
        text@ == magic_text(magic@),
{
    let mut parts: Vec<String> = Vec::new();
    let mut i: usize = 0;
    while i < magic.len()
        invariant
            i <= magic.len(),
            parts.len() == i,
            forall|j: int| 0 <= j < i ==> (#[trigger] parts[j])@ == decimal(magic[j] as nat),
        decreases magic.len() - i,
    {
        parts.push(decimal_string(magic[i] as u64));
        i += 1;
    }
    assert(views(parts@) =~= magic@.map_values(|b: u8| decimal(b as nat)));
    join(&parts, ", ")
}

/// The metadata table: the types that describe it, then the table with its magic bytes, the
/// version, the number of entries and the entries.
pub open spec fn metadata_text(
    entries: Seq<Seq<char>>,
    protocol: ProtocolView,
    origin: OriginView,
) -> Seq<char> {
    let length = decimal(entries.len());
    line_directive_text(origin.metadata, origin.file) + METADATA_OPEN@
        + decimal(protocol.flags.is_copy_constructible as nat)
        + ") |\n        (std::is_default_constructible<T>::value << "@
        + decimal(protocol.flags.is_default_constructible as nat) + TRIVIAL_BITS@
        + decimal(protocol.flags.is_trivially_destructible as nat)
        + ") |\n        (std::is_trivially_copyable<T>::value << "@
        + decimal(protocol.flags.is_trivially_copyable as nat)
        + ") |\n        (std::is_trivially_default_constructible<T>::value << "@
        + decimal(protocol.flags.is_trivially_default_constructible as nat) + METADATA_TYPES@
        + length + "];\n};\n\nMetaData metadata_"@ + decimal(protocol.file_hash as nat)
        + " = {\n    { "@ + magic_text(protocol.magic) + " },\n    \""@ + protocol.version
        + "\",\n    0xffef,\n    "@ + length + ",\n    { "@ + joined(entries, ", "@)
        + " }\n};\n\n} // namespace rustcpp\n"@
}

fn metadata(entries: &Vec<String>, protocol: &Protocol, origin: &Origin) -> (text: String)
    ensures
        text@ == metadata_text(views(entries@), protocol@, origin@),
{
    let length = decimal_string(entries.len() as u64);
    let mut text = line_directive(origin.metadata, origin.file.as_str());
    text.append(METADATA_OPEN);
    text.append(decimal_string(protocol.flags.is_copy_constructible as u64).as_str());
    text.append(") |\n        (std::is_default_constructible<T>::value << ");
    text.append(decimal_string(protocol.flags.is_default_constructible as u64).as_str());
    text.append(TRIVIAL_BITS);
    text.append(decimal_string(protocol.flags.is_trivially_destructible as u64).as_str());
    text.append(") |\n        (std::is_trivially_copyable<T>::value << ");
    text.append(decimal_string(protocol.flags.is_trivially_copyable as u64).as_str());
    text.append(") |\n        (std::is_trivially_default_constructible<T>::value << ");
    text.append(decimal_string(protocol.flags.is_trivially_default_constructible as u64).as_str());
    text.append(METADATA_TYPES);
    text.append(length.as_str());
    text.append("];\n};\n\nMetaData metadata_");
    text.append(decimal_string(protocol.file_hash).as_str());
    text.append(" = {\n    { ");
    text.append(magic_list(&protocol.magic).as_str());
    text.append(" },\n    \"");
    text.append(protocol.version.as_str());
    text.append("\",\n    0xffef,\n    ");
    text.append(length.as_str());
    text.append(",\n    { ");
    text.append(join(entries, ", ").as_str());
    text.append(" }\n};\n\n} // namespace rustcpp\n");
    text
}

/// All metadata entries: those of the closures, then those of the classes.
pub open spec fn all_entries(declarations: DeclarationsView) -> Seq<Seq<char>> {
    closures_entries(declarations.closures, declarations.closures.len()) + classes_entries(
        declarations.classes,
    )
}

/// The helpers, and after them the callback table if there is any callback.
pub open spec fn preamble_text(
    callbacks_count: u32,
    protocol: ProtocolView,
    origin: OriginView,
) -> Seq<char> {
    if callbacks_count > 0 {
        INTERNAL_CPP_STRUCTS@ + callback_table_text(callbacks_count, protocol, origin)
    } else {
        INTERNAL_CPP_STRUCTS@
    }
}

/// The C++ source for the declarations of a crate.
pub open spec fn library_text(
    declarations: DeclarationsView,
    protocol: ProtocolView,
    origin: OriginView,
) -> Seq<char> {
    preamble_text(declarations.callbacks_count, protocol, origin) + declarations.snippets
        + "\n\n"@ + closures_text(
        declarations.closures,
        declarations.closures.len(),
        origin,
    ) + classes_text(declarations.classes, declarations.classes.len()) + metadata_text(
        all_entries(declarations),
        protocol,
        origin,
    )
}

/// The C++ source for the declarations of a crate, in the parts in which it is brought out. A
/// warning comes just before the text of the closure that it is about.
pub open spec fn library_parts(
    declarations: DeclarationsView,
    protocol: ProtocolView,
    origin: OriginView,
) -> Seq<PartView> {
    let start = quiet_part(
        preamble_text(declarations.callbacks_count, protocol, origin) + declarations.snippets
            + "\n\n"@,
    );
    let end = quiet_part(
        classes_text(declarations.classes, declarations.classes.len()) + metadata_text(
            all_entries(declarations),
            protocol,
            origin,
        ),
    );
    (seq![start] + closures_parts(
        declarations.closures,
        declarations.closures.len(),
        origin,
    )).push(end)
}

/// Generates the C++ source for the declarations of a crate. Two closures with one hash and
/// different signatures both get their function, which the C++ compiler then refuses, and a
/// warning tells of the collision.
///
/// The parts are to be brought out in order: a part that cannot be written leaves those after it,
/// and their warnings, undone.
pub fn gen_cpp_lib(
    declarations: &Declarations,
    protocol: &Protocol,
    origin: &Origin,
) -> (parts: Vec<Part>)
    ensures
        part_views(parts@) == library_parts(declarations@, protocol@, origin@),
        all_text(part_views(parts@)) == library_text(declarations@, protocol@, origin@),
        all_warnings(part_views(parts@)) == collision_warnings(
            declarations@.closures,
            declarations@.closures.len(),
        ),
{
    let mut text = INTERNAL_CPP_STRUCTS.to_owned();
    if declarations.callbacks_count > 0 {
        text.append(callback_table(declarations.callbacks_count, protocol, origin).as_str());
    }
    text.append(declarations.snippets.as_str());
    text.append("\n\n");
    let mut parts: Vec<Part> = Vec::new();
    push_part(&mut parts, quiet(text));
    assert(part_views(parts@) =~= library_parts(declarations@, protocol@, origin@).take(1));
    let ghost start = part_views(parts@);
    let mut entries = generate_closures(&declarations.closures, origin, &mut parts);
    let mut text = generate_classes(&declarations.classes, &mut entries);
    text.append(metadata(&entries, protocol, origin).as_str());
    push_part(&mut parts, quiet(text));
    proof {
        assert(part_views(parts@) =~= library_parts(declarations@, protocol@, origin@));
        the_parts_make_the_library(declarations@, protocol@, origin@);
    }
    parts
}

fn quiet(text: String) -> (part: Part)
    ensures
        part@ == quiet_part(text@),
{
    let warnings: Vec<String> = Vec::new();
    assert(views(warnings@) =~= Seq::empty());
    Part { warnings, text }
}

} // verus!
