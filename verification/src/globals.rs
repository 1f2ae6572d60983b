//! The global namespace tables: fixed, case-sensitive membership sets for
//! identifiers that the host environment or the language runtime provides
//! without any declaration in the source file.
//!
//! Two base tables exist.  The JavaScript table holds the ECMAScript
//! intrinsics together with common browser and Node.js host globals; it
//! applies to every source file.  The TypeScript table holds the ambient
//! utility and declaration types of the TypeScript standard library; it
//! applies only when the source file is TypeScript.

use vstd::prelude::*;
use crate::text::str_eq;

verus! {

/// Membership in the fixed JavaScript global table: the ECMAScript
/// intrinsics and the common browser and Node.js host globals.
pub open spec fn is_js_global_spec(name: Seq<char>) -> bool {
    ||| name == "undefined"@
    ||| name == "NaN"@
    ||| name == "Infinity"@
    ||| name == "globalThis"@
    ||| name == "eval"@
    ||| name == "isFinite"@
    ||| name == "isNaN"@
    ||| name == "parseFloat"@
    ||| name == "parseInt"@
    ||| name == "decodeURI"@
    ||| name == "decodeURIComponent"@
    ||| name == "encodeURI"@
    ||| name == "encodeURIComponent"@
    ||| name == "Array"@
    ||| name == "ArrayBuffer"@
    ||| name == "BigInt"@
    ||| name == "BigInt64Array"@
    ||| name == "BigUint64Array"@
    ||| name == "Boolean"@
    ||| name == "DataView"@
    ||| name == "Date"@
    ||| name == "Error"@
    ||| name == "EvalError"@
    ||| name == "FinalizationRegistry"@
    ||| name == "Float32Array"@
    ||| name == "Float64Array"@
    ||| name == "Function"@
    ||| name == "Int8Array"@
    ||| name == "Int16Array"@
    ||| name == "Int32Array"@
    ||| name == "Map"@
    ||| name == "Number"@
    ||| name == "Object"@
    ||| name == "Promise"@
    ||| name == "Proxy"@
    ||| name == "RangeError"@
    ||| name == "ReferenceError"@
    ||| name == "Reflect"@
    ||| name == "RegExp"@
    ||| name == "Set"@
    ||| name == "SharedArrayBuffer"@
    ||| name == "String"@
    ||| name == "Symbol"@
    ||| name == "SyntaxError"@
    ||| name == "TypeError"@
    ||| name == "URIError"@
    ||| name == "Uint8Array"@
    ||| name == "Uint8ClampedArray"@
    ||| name == "Uint16Array"@
    ||| name == "Uint32Array"@
    ||| name == "WeakMap"@
    ||| name == "WeakRef"@
    ||| name == "WeakSet"@
    ||| name == "JSON"@
    ||| name == "Math"@
    ||| name == "Intl"@
    ||| name == "Atomics"@
    ||| name == "console"@
    ||| name == "window"@
    ||| name == "document"@
    ||| name == "navigator"@
    ||| name == "fetch"@
    ||| name == "setTimeout"@
    ||| name == "clearTimeout"@
    ||| name == "setInterval"@
    ||| name == "clearInterval"@
    ||| name == "queueMicrotask"@
    ||| name == "structuredClone"@
    ||| name == "URL"@
    ||| name == "URLSearchParams"@
    ||| name == "TextEncoder"@
    ||| name == "TextDecoder"@
    ||| name == "AbortController"@
    ||| name == "AbortSignal"@
    ||| name == "Blob"@
    ||| name == "Event"@
    ||| name == "EventTarget"@
    ||| name == "Headers"@
    ||| name == "Request"@
    ||| name == "Response"@
    ||| name == "WebSocket"@
    ||| name == "Worker"@
    ||| name == "XMLHttpRequest"@
    ||| name == "localStorage"@
    ||| name == "sessionStorage"@
    ||| name == "alert"@
    ||| name == "atob"@
    ||| name == "btoa"@
    ||| name == "crypto"@
    ||| name == "performance"@
    ||| name == "process"@
    ||| name == "Buffer"@
    ||| name == "global"@
    ||| name == "require"@
    ||| name == "module"@
    ||| name == "exports"@
    ||| name == "__dirname"@
    ||| name == "__filename"@
    ||| name == "setImmediate"@
    ||| name == "clearImmediate"@
}

/// Membership in the fixed TypeScript ambient global table: the utility
/// and ambient declaration types of the TypeScript standard library.
pub open spec fn is_ts_global_spec(name: Seq<char>) -> bool {
    ||| name == "PromiseLike"@
    ||| name == "ArrayLike"@
    ||| name == "Partial"@
    ||| name == "Required"@
    ||| name == "Readonly"@
    ||| name == "Pick"@
    ||| name == "Record"@
    ||| name == "Exclude"@
    ||| name == "Extract"@
    ||| name == "Omit"@
    ||| name == "NonNullable"@
    ||| name == "Parameters"@
    ||| name == "ConstructorParameters"@
    ||| name == "ReturnType"@
    ||| name == "InstanceType"@
    ||| name == "ThisParameterType"@
    ||| name == "OmitThisParameter"@
    ||| name == "ThisType"@
    ||| name == "Uppercase"@
    ||| name == "Lowercase"@
    ||| name == "Capitalize"@
    ||| name == "Uncapitalize"@
    ||| name == "Awaited"@
    ||| name == "Iterable"@
    ||| name == "Iterator"@
    ||| name == "IterableIterator"@
    ||| name == "AsyncIterable"@
    ||| name == "AsyncIterator"@
    ||| name == "AsyncIterableIterator"@
    ||| name == "Generator"@
    ||| name == "GeneratorFunction"@
    ||| name == "AsyncGenerator"@
    ||| name == "AsyncGeneratorFunction"@
    ||| name == "PropertyKey"@
    ||| name == "PropertyDescriptor"@
    ||| name == "PropertyDescriptorMap"@
    ||| name == "TemplateStringsArray"@
    ||| name == "ImportMeta"@
    ||| name == "ReadonlyArray"@
    ||| name == "ReadonlyMap"@
    ||| name == "ReadonlySet"@
    ||| name == "ConcatArray"@
    ||| name == "IArguments"@
    ||| name == "NewableFunction"@
    ||| name == "CallableFunction"@
}

/// Exact, case-sensitive membership test against the JavaScript table.
pub fn is_js_global(name: &str) -> (r: bool)
    ensures
        r == is_js_global_spec(name@),
{
    str_eq(name, "undefined") || str_eq(name, "NaN") || str_eq(name, "Infinity")
        || str_eq(name, "globalThis") || str_eq(name, "eval") || str_eq(name, "isFinite")
        || str_eq(name, "isNaN") || str_eq(name, "parseFloat") || str_eq(name, "parseInt")
        || str_eq(name, "decodeURI") || str_eq(name, "decodeURIComponent")
        || str_eq(name, "encodeURI") || str_eq(name, "encodeURIComponent")
        || str_eq(name, "Array") || str_eq(name, "ArrayBuffer") || str_eq(name, "BigInt")
        || str_eq(name, "BigInt64Array") || str_eq(name, "BigUint64Array")
        || str_eq(name, "Boolean") || str_eq(name, "DataView") || str_eq(name, "Date")
        || str_eq(name, "Error") || str_eq(name, "EvalError")
        || str_eq(name, "FinalizationRegistry") || str_eq(name, "Float32Array")
        || str_eq(name, "Float64Array") || str_eq(name, "Function") || str_eq(name, "Int8Array")
        || str_eq(name, "Int16Array") || str_eq(name, "Int32Array") || str_eq(name, "Map")
        || str_eq(name, "Number") || str_eq(name, "Object") || str_eq(name, "Promise")
        || str_eq(name, "Proxy") || str_eq(name, "RangeError") || str_eq(name, "ReferenceError")
        || str_eq(name, "Reflect") || str_eq(name, "RegExp") || str_eq(name, "Set")
        || str_eq(name, "SharedArrayBuffer") || str_eq(name, "String") || str_eq(name, "Symbol")
        || str_eq(name, "SyntaxError") || str_eq(name, "TypeError") || str_eq(name, "URIError")
        || str_eq(name, "Uint8Array") || str_eq(name, "Uint8ClampedArray")
        || str_eq(name, "Uint16Array") || str_eq(name, "Uint32Array") || str_eq(name, "WeakMap")
        || str_eq(name, "WeakRef") || str_eq(name, "WeakSet") || str_eq(name, "JSON")
        || str_eq(name, "Math") || str_eq(name, "Intl") || str_eq(name, "Atomics")
        || str_eq(name, "console") || str_eq(name, "window") || str_eq(name, "document")
        || str_eq(name, "navigator") || str_eq(name, "fetch") || str_eq(name, "setTimeout")
        || str_eq(name, "clearTimeout") || str_eq(name, "setInterval")
        || str_eq(name, "clearInterval") || str_eq(name, "queueMicrotask")
        || str_eq(name, "structuredClone") || str_eq(name, "URL")
        || str_eq(name, "URLSearchParams") || str_eq(name, "TextEncoder")
        || str_eq(name, "TextDecoder") || str_eq(name, "AbortController")
        || str_eq(name, "AbortSignal") || str_eq(name, "Blob") || str_eq(name, "Event")
        || str_eq(name, "EventTarget") || str_eq(name, "Headers") || str_eq(name, "Request")
        || str_eq(name, "Response") || str_eq(name, "WebSocket") || str_eq(name, "Worker")
        || str_eq(name, "XMLHttpRequest") || str_eq(name, "localStorage")
        || str_eq(name, "sessionStorage") || str_eq(name, "alert") || str_eq(name, "atob")
        || str_eq(name, "btoa") || str_eq(name, "crypto") || str_eq(name, "performance")
        || str_eq(name, "process") || str_eq(name, "Buffer") || str_eq(name, "global")
        || str_eq(name, "require") || str_eq(name, "module") || str_eq(name, "exports")
        || str_eq(name, "__dirname") || str_eq(name, "__filename")
        || str_eq(name, "setImmediate") || str_eq(name, "clearImmediate")
}

/// Exact, case-sensitive membership test against the TypeScript table.
pub fn is_ts_global(name: &str) -> (r: bool)
    ensures
        r == is_ts_global_spec(name@),
{
    str_eq(name, "PromiseLike") || str_eq(name, "ArrayLike") || str_eq(name, "Partial")
        || str_eq(name, "Required") || str_eq(name, "Readonly") || str_eq(name, "Pick")
        || str_eq(name, "Record") || str_eq(name, "Exclude") || str_eq(name, "Extract")
        || str_eq(name, "Omit") || str_eq(name, "NonNullable") || str_eq(name, "Parameters")
        || str_eq(name, "ConstructorParameters") || str_eq(name, "ReturnType")
        || str_eq(name, "InstanceType") || str_eq(name, "ThisParameterType")
        || str_eq(name, "OmitThisParameter") || str_eq(name, "ThisType")
        || str_eq(name, "Uppercase") || str_eq(name, "Lowercase") || str_eq(name, "Capitalize")
        || str_eq(name, "Uncapitalize") || str_eq(name, "Awaited") || str_eq(name, "Iterable")
        || str_eq(name, "Iterator") || str_eq(name, "IterableIterator")
        || str_eq(name, "AsyncIterable") || str_eq(name, "AsyncIterator")
        || str_eq(name, "AsyncIterableIterator") || str_eq(name, "Generator")
        || str_eq(name, "GeneratorFunction") || str_eq(name, "AsyncGenerator")
        || str_eq(name, "AsyncGeneratorFunction") || str_eq(name, "PropertyKey")
        || str_eq(name, "PropertyDescriptor") || str_eq(name, "PropertyDescriptorMap")
        || str_eq(name, "TemplateStringsArray") || str_eq(name, "ImportMeta")
        || str_eq(name, "ReadonlyArray") || str_eq(name, "ReadonlyMap")
        || str_eq(name, "ReadonlySet") || str_eq(name, "ConcatArray")
        || str_eq(name, "IArguments") || str_eq(name, "NewableFunction")
        || str_eq(name, "CallableFunction")
}

} // verus!
