use cpp_build::declarations::{Capture, Class, Closure, ClosureSig, Declarations};
use cpp_build::generate::{gen_cpp_lib, FlagBits, Origin, Protocol};
use cpp_build::templates::INTERNAL_CPP_STRUCTS;

fn capture(mutable: bool, name: &str, cpp: &str) -> Capture {
    Capture { mutable, name: name.to_string(), cpp: cpp.to_string() }
}

fn closure(
    name_hash: u64,
    captures: Vec<Capture>,
    cpp: &str,
    std_body: &str,
    body: &str,
    callback_offset: u32,
) -> Closure {
    Closure {
        sig: ClosureSig { captures, cpp: cpp.to_string(), std_body: std_body.to_string() },
        body_str: body.to_string(),
        callback_offset,
        name_hash,
        extern_name: format!("__cpp_closure_{}", name_hash),
    }
}

fn class(name_hash: u64, cpp: &str, line: &str, derived: &[&str]) -> Class {
    Class {
        cpp: cpp.to_string(),
        line: line.to_string(),
        name_hash,
        derived_traits: derived.iter().map(|d| d.to_string()).collect(),
    }
}

fn adder(body: &str, callback_offset: u32) -> Closure {
    let captures = vec![capture(true, "x", "int"), capture(false, "y", "std::string")];
    closure(42, captures, "int", "return x ;", body, callback_offset)
}

fn protocol() -> Protocol {
    Protocol {
        file_hash: 12345678901234567890,
        magic: vec![114, 0, 255],
        version: "0.5.9".to_string(),
        flags: FlagBits {
            is_copy_constructible: 0,
            is_default_constructible: 1,
            is_trivially_destructible: 2,
            is_trivially_copyable: 3,
            is_trivially_default_constructible: 4,
        },
    }
}

fn origin() -> Origin {
    Origin {
        file: "src\\gen.rs".to_string(),
        callback_table: 11,
        void_closure: 22,
        value_closure: 33,
        metadata: 44,
    }
}

fn declarations(closures: Vec<Closure>, classes: Vec<Class>) -> Declarations {
    Declarations { closures, classes, snippets: String::new(), callbacks_count: 0 }
}

/// The text and the warnings of all parts.
fn library(all: &Declarations) -> (String, Vec<String>) {
    let mut text = String::new();
    let mut warnings = vec![];
    for part in gen_cpp_lib(all, &protocol(), &origin()) {
        text.push_str(&part.text);
        warnings.extend(part.warnings);
    }
    (text, warnings)
}

fn text_of(closures: Vec<Closure>, classes: Vec<Class>) -> String {
    library(&declarations(closures, classes)).0
}

#[test]
fn a_whole_library() {
    let closures = vec![
        closure(7, vec![], "void", "foo ( ) ;", "foo();", 0),
        adder("return x;", 3),
        // The same signature again: nothing is generated for it.
        adder("return  x;", 9),
        // A hash that is taken by another signature.
        closure(7, vec![], "bool", "return true ;", "return true;", u32::MAX),
        closure(100, vec![capture(false, "z", "A")], "void", "bar ( z ) ;", "bar(z);", 10),
    ];
    let classes = vec![
        class(
            u64::MAX,
            "QString",
            "#line 3 \"src/lib.rs\"\n",
            &["Clone", "PartialEq", "PartialOrd"],
        ),
        class(0, "Plain", "", &[]),
    ];
    let all = Declarations {
        closures,
        classes,
        snippets: "#pragma once\nstruct A {};".to_string(),
        callbacks_count: 2,
    };
    let (text, warnings) = library(&all);
    assert_eq!(text, WHOLE_LIBRARY);
    assert_eq!(warnings, vec!["cargo:warning=Hash collision detected."]);
}

#[test]
fn a_library_without_declarations() {
    let (text, warnings) = library(&declarations(vec![], vec![]));
    assert_eq!(text, EMPTY_LIBRARY);
    assert!(text.starts_with(INTERNAL_CPP_STRUCTS));
    assert!(warnings.is_empty());
}

#[test]
fn callback_table_only_with_callbacks() {
    let mut all = declarations(vec![], vec![]);
    assert!(!library(&all).0.contains("rust_cpp_callbacks"));
    all.callbacks_count = 1;
    let text = library(&all).0;
    assert!(text.contains("void (*rust_cpp_callbacks12345678901234567890[1])() = {};"));
}

#[test]
fn a_repeat_is_generated_once() {
    let once = text_of(vec![adder("return x;", 3)], vec![]);
    let twice = text_of(vec![adder("return x;", 3), adder("return x;", 3)], vec![]);
    assert_eq!(once, twice);
    assert_eq!(once.matches("static inline int __cpp_closure_42_impl(").count(), 1);
}

#[test]
fn a_repeat_of_a_colliding_closure_is_generated_again() {
    let first = closure(1, vec![], "void", "a", "a", 0);
    let other = || closure(1, vec![], "void", "b", "b", 0);
    let all = declarations(vec![first, other(), other()], vec![]);
    let (text, warnings) = library(&all);
    assert_eq!(text.matches("void __cpp_closure_1() {\nb\n}").count(), 2);
    assert_eq!(
        warnings,
        vec![
            "cargo:warning=Hash collision detected.",
            "cargo:warning=Hash collision detected.",
        ]
    );
}

#[test]
fn a_warning_comes_with_the_closure_that_collides() {
    let all = declarations(
        vec![
            closure(1, vec![], "void", "a", "a", 0),
            closure(1, vec![], "void", "a", "a", 0),
            closure(2, vec![], "void", "b", "b", 0),
            closure(1, vec![], "void", "c", "c", 0),
        ],
        vec![class(3, "C", "", &[])],
    );
    let parts = gen_cpp_lib(&all, &protocol(), &origin());
    let none: Vec<String> = vec![];
    // The preamble, three closures, and the classes with the metadata. The repeat has no part.
    assert_eq!(parts.len(), 5);
    assert!(parts[0].text.starts_with(INTERNAL_CPP_STRUCTS));
    assert_eq!(parts[0].warnings, none);
    assert!(parts[1].text.contains("void __cpp_closure_1() {\na\n}"));
    assert_eq!(parts[1].warnings, none);
    assert!(parts[2].text.contains("void __cpp_closure_2() {\nb\n}"));
    assert_eq!(parts[2].warnings, none);
    assert!(parts[3].text.contains("void __cpp_closure_1() {\nc\n}"));
    assert_eq!(parts[3].warnings, vec!["cargo:warning=Hash collision detected."]);
    assert!(parts[4].text.starts_with("RUST_CPP_CLASS_HELPER(3, C)\n"));
    assert_eq!(parts[4].warnings, none);
}

#[test]
fn signatures_differ_in_each_part() {
    let sig = |mutable: bool, name: &str, ty: &str, cpp: &str, body: &str| ClosureSig {
        captures: vec![capture(mutable, name, ty)],
        cpp: cpp.to_string(),
        std_body: body.to_string(),
    };
    let base = sig(true, "x", "int", "int", "b");
    assert!(base.same(&sig(true, "x", "int", "int", "b")));
    assert!(!base.same(&sig(false, "x", "int", "int", "b")));
    assert!(!base.same(&sig(true, "y", "int", "int", "b")));
    assert!(!base.same(&sig(true, "x", "long", "int", "b")));
    assert!(!base.same(&sig(true, "x", "int", "long", "b")));
    assert!(!base.same(&sig(true, "x", "int", "int", "c")));
    let none = ClosureSig { captures: vec![], cpp: "int".to_string(), std_body: "b".to_string() };
    assert!(!base.same(&none));
}

#[test]
fn each_type_has_a_metadata_entry() {
    let text = text_of(
        vec![adder("return x;", 3), closure(5, vec![], "void", "", "", 0)],
        vec![class(6, "B", "", &[])],
    );
    // One closure with two captures, one without, and a class.
    assert!(text.contains("SizeAlign data[5];"));
    assert!(text.contains("    0xffef,\n    5,\n"));
    assert_eq!(text.matches("rustcpp::AlignOf<").count(), 4);
    assert!(text.contains("{5ull, 0, 1, 0ull << 32}"));
}

#[test]
fn derived_traits_choose_the_class_helpers() {
    let only_equal = text_of(vec![], vec![class(6, "B", "", &["PartialEq"])]);
    assert!(only_equal.contains("__cpp_equal_6(const B *a, const B *b) { return *a == *b; }\n"));
    assert!(!only_equal.contains("__cpp_compare_6"));
    let only_order = text_of(vec![], vec![class(6, "B", "", &["PartialOrd"])]);
    assert!(!only_order.contains("__cpp_equal_6"));
    assert!(only_order.contains(
        "__cpp_compare_6(const B *a, const B *b, int cmp) { return rustcpp::compare_helper(*a, *b, cmp); }\n"
    ));
    assert!(class(6, "B", "", &["Clone", "PartialEq"]).derives("PartialEq"));
    assert!(!class(6, "B", "", &["Clone", "PartialEq"]).derives("Partial"));
}

#[test]
fn snippets_are_copied() {
    let mut all = declarations(vec![], vec![]);
    all.snippets = "int \u{e9} = 1;\n".to_string();
    let text = library(&all).0;
    assert!(text.contains("int \u{e9} = 1;\n\n\n"));
}

#[test]
fn the_table_counts_distinct_signatures() {
    let text = text_of(
        vec![
            adder("return x;", 0),
            closure(5, vec![], "void", "", "", 0),
            adder("return x;", 1),
            closure(5, vec![], "void", "", "", 2),
        ],
        vec![class(6, "B", "", &[])],
    );
    assert!(text.contains("SizeAlign data[5];"));
}

const EMPTY_LIBRARY: &str = r##"
/* THIS FILE IS GENERATED BY rust-cpp. DO NOT EDIT */

#include "stdint.h" // For {u}intN_t
#include <new> // For placement new
#include <cstdlib> // For abort
#include <type_traits>
#include <utility>

namespace rustcpp {

// We can't just pass or return any type from extern "C" rust functions (because the call
// convention may differ between the C++ type, and the Rust type).
// So we make sure to pass trivial structure that only contains a pointer to the object we want to
// pass. The constructor of these helper class contains a 'container' of the right size which will
// be allocated on the stack.
template<typename T> struct return_helper {
    struct container {
#if defined (_MSC_VER) && (_MSC_VER + 0 < 1900)
        char memory[sizeof(T)];
        ~container() { reinterpret_cast<T*>(this)->~T(); }
#else
        // The fact that it is in an union means it is properly sized and aligned, but we have
        // to call the destructor and constructor manually
        union { T memory; };
        ~container() { memory.~T(); }
#endif
        container() {}
    };
    const container* data;
    return_helper(int, const container &c = container()) : data(&c) { }
};

template<typename T> struct argument_helper {
    using type = const T&;
};
template<typename T> struct argument_helper<T&> {
    T &ref;
    argument_helper(T &x) : ref(x) {}
    using type = argument_helper<T&> const&;
};

template<typename T>
typename std::enable_if<std::is_copy_constructible<T>::value>::type copy_helper(const void *src, void *dest)
{ new (dest) T (*static_cast<T const*>(src)); }
template<typename T>
typename std::enable_if<!std::is_copy_constructible<T>::value>::type copy_helper(const void *, void *)
{ std::abort(); }
template<typename T>
typename std::enable_if<std::is_default_constructible<T>::value>::type default_helper(void *dest)
{ new (dest) T(); }
template<typename T>
typename std::enable_if<!std::is_default_constructible<T>::value>::type default_helper(void *)
{ std::abort(); }

template<typename T> int compare_helper(const T &a, const T&b, int cmp) {
    switch (cmp) {
        using namespace std::rel_ops;
        case 0:
            if (a < b)
                return -1;
            if (b < a)
                return 1;
            return 0;
        case -2: return a < b;
        case 2: return a > b;
        case -1: return a <= b;
        case 1: return a >= b;
    }
    std::abort();
}
}

#define RUST_CPP_CLASS_HELPER(HASH, ...) \
    extern "C" { \
    void __cpp_destructor_##HASH(void *ptr) { typedef __VA_ARGS__ T; static_cast<T*>(ptr)->~T(); } \
    void __cpp_copy_##HASH(const void *src, void *dest) { rustcpp::copy_helper<__VA_ARGS__>(src, dest); } \
    void __cpp_default_##HASH(void *dest) { rustcpp::default_helper<__VA_ARGS__>(dest); } \
    }


#line 44 "src\\gen.rs"


namespace rustcpp {

template<typename T>
struct AlignOf {
    struct Inner {
        char a;
        T b;
    };
    static const uintptr_t value = sizeof(Inner) - sizeof(T);
};

template<typename T>
struct Flags {
    static const uintptr_t value =
        (std::is_copy_constructible<T>::value << 0) |
        (std::is_default_constructible<T>::value << 1) |
#if !defined(__GNUC__) || (__GNUC__ + 0 >= 5) || defined(__clang__)
        (std::is_trivially_destructible<T>::value << 2) |
        (std::is_trivially_copyable<T>::value << 3) |
        (std::is_trivially_default_constructible<T>::value << 4) |
#endif
        0;
};

struct SizeAlign {
    uint64_t hash;
    uint64_t size;
    uint64_t align;
    uint64_t flags;
};

struct MetaData {
    uint8_t magic[128];
    uint8_t version[16];
    uint64_t endianness_check;
    uint64_t length;
    SizeAlign data[0];
};

MetaData metadata_12345678901234567890 = {
    { 114, 0, 255 },
    "0.5.9",
    0xffef,
    0,
    {  }
};

} // namespace rustcpp
"##;

const WHOLE_LIBRARY: &str = r##"
/* THIS FILE IS GENERATED BY rust-cpp. DO NOT EDIT */

#include "stdint.h" // For {u}intN_t
#include <new> // For placement new
#include <cstdlib> // For abort
#include <type_traits>
#include <utility>

namespace rustcpp {

// We can't just pass or return any type from extern "C" rust functions (because the call
// convention may differ between the C++ type, and the Rust type).
// So we make sure to pass trivial structure that only contains a pointer to the object we want to
// pass. The constructor of these helper class contains a 'container' of the right size which will
// be allocated on the stack.
template<typename T> struct return_helper {
    struct container {
#if defined (_MSC_VER) && (_MSC_VER + 0 < 1900)
        char memory[sizeof(T)];
        ~container() { reinterpret_cast<T*>(this)->~T(); }
#else
        // The fact that it is in an union means it is properly sized and aligned, but we have
        // to call the destructor and constructor manually
        union { T memory; };
        ~container() { memory.~T(); }
#endif
        container() {}
    };
    const container* data;
    return_helper(int, const container &c = container()) : data(&c) { }
};

template<typename T> struct argument_helper {
    using type = const T&;
};
template<typename T> struct argument_helper<T&> {
    T &ref;
    argument_helper(T &x) : ref(x) {}
    using type = argument_helper<T&> const&;
};

template<typename T>
typename std::enable_if<std::is_copy_constructible<T>::value>::type copy_helper(const void *src, void *dest)
{ new (dest) T (*static_cast<T const*>(src)); }
template<typename T>
typename std::enable_if<!std::is_copy_constructible<T>::value>::type copy_helper(const void *, void *)
{ std::abort(); }
template<typename T>
typename std::enable_if<std::is_default_constructible<T>::value>::type default_helper(void *dest)
{ new (dest) T(); }
template<typename T>
typename std::enable_if<!std::is_default_constructible<T>::value>::type default_helper(void *)
{ std::abort(); }

template<typename T> int compare_helper(const T &a, const T&b, int cmp) {
    switch (cmp) {
        using namespace std::rel_ops;
        case 0:
            if (a < b)
                return -1;
            if (b < a)
                return 1;
            return 0;
        case -2: return a < b;
        case 2: return a > b;
        case -1: return a <= b;
        case 1: return a >= b;
    }
    std::abort();
}
}

#define RUST_CPP_CLASS_HELPER(HASH, ...) \
    extern "C" { \
    void __cpp_destructor_##HASH(void *ptr) { typedef __VA_ARGS__ T; static_cast<T*>(ptr)->~T(); } \
    void __cpp_copy_##HASH(const void *src, void *dest) { rustcpp::copy_helper<__VA_ARGS__>(src, dest); } \
    void __cpp_default_##HASH(void *dest) { rustcpp::default_helper<__VA_ARGS__>(dest); } \
    }
#line 11 "src\\gen.rs"

extern "C" {
    void (*rust_cpp_callbacks12345678901234567890[2])() = {};
}
        #pragma once
struct A {};

#line 22 "src\\gen.rs"

extern "C" {
void __cpp_closure_7() {
foo();
}
}
#line 33 "src\\gen.rs"

static inline int __cpp_closure_42_impl(int & x, std::string const& y) {
return x;
}
extern "C" {
void __cpp_closure_42(int & x, std::string const& y, void* __result) {
    ::new(__result) (int)(__cpp_closure_42_impl(x, y));
}
}
#line 33 "src\\gen.rs"

static inline bool __cpp_closure_7_impl() {
return true;
}
extern "C" {
void __cpp_closure_7( void* __result) {
    ::new(__result) (bool)(__cpp_closure_7_impl());
}
}
#line 22 "src\\gen.rs"

extern "C" {
void __cpp_closure_100(A const& z) {
bar(z);
}
}
#line 3 "src/lib.rs"
RUST_CPP_CLASS_HELPER(18446744073709551615, QString)
#line 3 "src/lib.rs"
extern "C" bool __cpp_equal_18446744073709551615(const QString *a, const QString *b) { return *a == *b; }
#line 3 "src/lib.rs"
extern "C" bool __cpp_compare_18446744073709551615(const QString *a, const QString *b, int cmp) { return rustcpp::compare_helper(*a, *b, cmp); }
RUST_CPP_CLASS_HELPER(0, Plain)
#line 44 "src\\gen.rs"


namespace rustcpp {

template<typename T>
struct AlignOf {
    struct Inner {
        char a;
        T b;
    };
    static const uintptr_t value = sizeof(Inner) - sizeof(T);
};

template<typename T>
struct Flags {
    static const uintptr_t value =
        (std::is_copy_constructible<T>::value << 0) |
        (std::is_default_constructible<T>::value << 1) |
#if !defined(__GNUC__) || (__GNUC__ + 0 >= 5) || defined(__clang__)
        (std::is_trivially_destructible<T>::value << 2) |
        (std::is_trivially_copyable<T>::value << 3) |
        (std::is_trivially_default_constructible<T>::value << 4) |
#endif
        0;
};

struct SizeAlign {
    uint64_t hash;
    uint64_t size;
    uint64_t align;
    uint64_t flags;
};

struct MetaData {
    uint8_t magic[128];
    uint8_t version[16];
    uint64_t endianness_check;
    uint64_t length;
    SizeAlign data[9];
};

MetaData metadata_12345678901234567890 = {
    { 114, 0, 255 },
    "0.5.9",
    0xffef,
    9,
    { {7ull, 0, 1, 0ull << 32}, {
                42ull,
                sizeof(int),
                rustcpp::AlignOf<int>::value,
                rustcpp::Flags<int>::value | 3ull << 32
            }, {
                42ull,
                sizeof(int),
                rustcpp::AlignOf<int>::value,
                rustcpp::Flags<int>::value
            }, {
                42ull,
                sizeof(std::string),
                rustcpp::AlignOf<std::string>::value,
                rustcpp::Flags<std::string>::value
            }, {
                7ull,
                sizeof(bool),
                rustcpp::AlignOf<bool>::value,
                rustcpp::Flags<bool>::value | 4294967295ull << 32
            }, {100ull, 0, 1, 10ull << 32}, {
                100ull,
                sizeof(A),
                rustcpp::AlignOf<A>::value,
                rustcpp::Flags<A>::value
            }, {
                18446744073709551615ull,
                sizeof(QString),
                rustcpp::AlignOf<QString>::value,
                rustcpp::Flags<QString>::value
            }, {
                0ull,
                sizeof(Plain),
                rustcpp::AlignOf<Plain>::value,
                rustcpp::Flags<Plain>::value
            } }
};

} // namespace rustcpp
"##;
