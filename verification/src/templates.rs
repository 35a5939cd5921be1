//! The fixed parts of the generated C++ text.
//!
//! The parts whose names end in `_OPEN` begin a template. For each a constant holds the line of this
//! file on which it begins, for the line directives in the generated text; the first line of the
//! part counts as that line. The script `extras/template_lines.sh` lists the lines as they are.

use vstd::prelude::*;

verus! {

/// Helper templates and macros that the rest of the generated text builds on.
pub const INTERNAL_CPP_STRUCTS: &'static str = r#"
/* THIS FILE IS GENERATED BY rust-cpp. DO NOT EDIT */

#include "stdint.h" // For {u}intN_t
#include <new> // For placement new
#include <cstdlib> // For abort
#include <type_traits>
#include <utility>

namespace rustcpp {

// We can't just pass or return any type from extern "C" rust functions (because the call
// convention may differ between the C++ type, and the Rust type).
// So we make sure to pass trivial structure that only contains a pointer to the object we want to
// pass. The constructor of these helper class contains a 'container' of the right size which will
// be allocated on the stack.
template<typename T> struct return_helper {
    struct container {
#if defined (_MSC_VER) && (_MSC_VER + 0 < 1900)
        char memory[sizeof(T)];
        ~container() { reinterpret_cast<T*>(this)->~T(); }
#else
        // The fact that it is in an union means it is properly sized and aligned, but we have
        // to call the destructor and constructor manually
        union { T memory; };
        ~container() { memory.~T(); }
#endif
        container() {}
    };
    const container* data;
    return_helper(int, const container &c = container()) : data(&c) { }
};

template<typename T> struct argument_helper {
    using type = const T&;
};
template<typename T> struct argument_helper<T&> {
    T &ref;
    argument_helper(T &x) : ref(x) {}
    using type = argument_helper<T&> const&;
};

template<typename T>
typename std::enable_if<std::is_copy_constructible<T>::value>::type copy_helper(const void *src, void *dest)
{ new (dest) T (*static_cast<T const*>(src)); }
template<typename T>
typename std::enable_if<!std::is_copy_constructible<T>::value>::type copy_helper(const void *, void *)
{ std::abort(); }
template<typename T>
typename std::enable_if<std::is_default_constructible<T>::value>::type default_helper(void *dest)
{ new (dest) T(); }
template<typename T>
typename std::enable_if<!std::is_default_constructible<T>::value>::type default_helper(void *)
{ std::abort(); }

template<typename T> int compare_helper(const T &a, const T&b, int cmp) {
    switch (cmp) {
        using namespace std::rel_ops;
        case 0:
            if (a < b)
                return -1;
            if (b < a)
                return 1;
            return 0;
        case -2: return a < b;
        case 2: return a > b;
        case -1: return a <= b;
        case 1: return a >= b;
    }
    std::abort();
}
}

#define RUST_CPP_CLASS_HELPER(HASH, ...) \
    extern "C" { \
    void __cpp_destructor_##HASH(void *ptr) { typedef __VA_ARGS__ T; static_cast<T*>(ptr)->~T(); } \
    void __cpp_copy_##HASH(const void *src, void *dest) { rustcpp::copy_helper<__VA_ARGS__>(src, dest); } \
    void __cpp_default_##HASH(void *dest) { rustcpp::default_helper<__VA_ARGS__>(dest); } \
    }
"#;

/// This file, as line directives name it.
pub const TEMPLATES_FILE: &'static str = "src/templates.rs";

/// Line of [`CALLBACK_TABLE_OPEN`].
pub const CALLBACK_TABLE_LINE: u32 = 109;

/// Line of [`VOID_CLOSURE_OPEN`].
pub const VOID_CLOSURE_LINE: u32 = 114;

/// Line of [`VALUE_CLOSURE_OPEN`].
pub const VALUE_CLOSURE_LINE: u32 = 119;

/// Line of [`METADATA_OPEN`].
pub const METADATA_LINE: u32 = 123;

/// The start of the callback table, up to the hash of the build.
pub const CALLBACK_TABLE_OPEN: &'static str = r#"
extern "C" {
    void (*rust_cpp_callbacks"#;

/// The start of a closure without a result, up to its name.
pub const VOID_CLOSURE_OPEN: &'static str = r#"
extern "C" {
void "#;

/// The start of a closure with a result, up to the type of it.
pub const VALUE_CLOSURE_OPEN: &'static str = r#"
static inline "#;

/// From the end of the closures and classes up to the bit of copy constructible types.
pub const METADATA_OPEN: &'static str = r#"

namespace rustcpp {

template<typename T>
struct AlignOf {
    struct Inner {
        char a;
        T b;
    };
    static const uintptr_t value = sizeof(Inner) - sizeof(T);
};

template<typename T>
struct Flags {
    static const uintptr_t value =
        (std::is_copy_constructible<T>::value << "#;

/// Between the bits of default constructible and of trivially destructible types.
pub const TRIVIAL_BITS: &'static str = r#") |
#if !defined(__GNUC__) || (__GNUC__ + 0 >= 5) || defined(__clang__)
        (std::is_trivially_destructible<T>::value << "#;

/// From the bits of the type traits to the length of the metadata table.
pub const METADATA_TYPES: &'static str = r#") |
#endif
        0;
};

struct SizeAlign {
    uint64_t hash;
    uint64_t size;
    uint64_t align;
    uint64_t flags;
};

struct MetaData {
    uint8_t magic[128];
    uint8_t version[16];
    uint64_t endianness_check;
    uint64_t length;
    SizeAlign data["#;

} // verus!
