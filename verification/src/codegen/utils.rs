//! Fixed parts of the emitted module: the LLVM type of each language type,
//! the format-string constants, the runtime declarations, and `printf` calls.

use vstd::prelude::*;
use crate::codegen::context::{g_line, CodegenCtx};
use crate::strmap::str_eq;
use crate::text::cat3;

verus! {

/// The LLVM type a language type lowers to: objects and strings live behind
/// pointers.
pub open spec fn spec_llvm(ty: Seq<char>) -> Seq<char> {
    if ty == "Number"@ {
        "double"@
    } else if ty == "Boolean"@ {
        "i1"@
    } else {
        "ptr"@
    }
}

/// Converts a language type name to its LLVM counterpart.
pub fn to_llvm_type(ty: &str) -> (r: &'static str)
    ensures
        r@ == spec_llvm(ty@),
{
    if str_eq(ty, "Number") {
        "double"
    } else if str_eq(ty, "Boolean") {
        "i1"
    } else {
        "ptr"
    }
}

/// The format strings and C library declarations every module carries.
pub open spec fn global_decl_lines() -> Seq<Seq<char>> {
    seq![
        "@.str.f = private unnamed_addr constant [4 x i8] c\"%f\\0A\\00\", align 1"@,
        "@.str.d = private unnamed_addr constant [4 x i8] c\"%d\\0A\\00\", align 1"@,
        "@.str.s = private unnamed_addr constant [4 x i8] c\"%s\\0A\\00\", align 1"@,
        "@.true_str = private constant [6 x i8] c\"true\\0A\\00\", align 1"@,
        "@.false_str = private constant [7 x i8] c\"false\\0A\\00\", align 1"@,
        "@.newline = private unnamed_addr constant [2 x i8] c\"\\0A\\00\", align 1"@,
        "declare i32 @printf(ptr, ...)"@,
        "declare i32 @strlen(ptr)"@,
        "declare ptr @strcpy(ptr, ptr)"@,
        "declare ptr @strcat(ptr, ptr)"@,
        "declare i32 @strcmp(ptr, ptr)"@,
        "declare i8* @malloc(i64)"@,
    ]
}

/// Emits the format-string constants and C library declarations.
pub fn declare_global(output: &mut Vec<String>, context: &mut CodegenCtx)
    requires
        old(context).wf(),
    ensures
        final(output).deep_view() == old(output).deep_view() + global_decl_lines(),
        final(context)@ == old(context)@,
        final(context).wf(),
    {
    let ghost pre = output.deep_view();
    push_line(output, "@.str.f = private unnamed_addr constant [4 x i8] c\"%f\\0A\\00\", align 1");
    push_line(output, "@.str.d = private unnamed_addr constant [4 x i8] c\"%d\\0A\\00\", align 1");
    push_line(output, "@.str.s = private unnamed_addr constant [4 x i8] c\"%s\\0A\\00\", align 1");
    push_line(output, "@.true_str = private constant [6 x i8] c\"true\\0A\\00\", align 1");
    push_line(output, "@.false_str = private constant [7 x i8] c\"false\\0A\\00\", align 1");
    push_line(output, "@.newline = private unnamed_addr constant [2 x i8] c\"\\0A\\00\", align 1");
    push_line(output, "declare i32 @printf(ptr, ...)");
    push_line(output, "declare i32 @strlen(ptr)");
    push_line(output, "declare ptr @strcpy(ptr, ptr)");
    push_line(output, "declare ptr @strcat(ptr, ptr)");
    push_line(output, "declare i32 @strcmp(ptr, ptr)");
    push_line(output, "declare i8* @malloc(i64)");
    proof {
        assert(output.deep_view() =~= pre + global_decl_lines());
    }
}

/// The runtime declarations and the in-module `@concat` helper.
pub open spec fn runtime_decl_lines() -> Seq<Seq<char>> {
    seq![
        ""@,
        "declare double @fmod(double, double)"@,
        "declare double @pow(double, double)"@,
        "declare void @llvm.memcpy.p0i8.p0i8.i64(i8*, i8*, i64, i1)"@,
        "define i8* @concat(i8* %s1, i8* %s2) {"@,
        "entry:"@,
        "  %len1 = call i64 @strlen(i8* %s1)"@,
        "  %len2 = call i64 @strlen(i8* %s2)"@,
        "  %totallen = add i64 %len1, %len2"@,
        "  %totallen1 = add i64 %totallen, 1"@,
        "  %buf = call i8* @malloc(i64 %totallen1)"@,
        "  call void @llvm.memcpy.p0i8.p0i8.i64(i8* %buf, i8* %s1, i64 %len1, i1 false)"@,
        "  %buf_offset = getelementptr i8, i8* %buf, i64 %len1"@,
        "  call void @llvm.memcpy.p0i8.p0i8.i64(i8* %buf_offset, i8* %s2, i64 %len2, i1 false)"@,
        "  %last = getelementptr i8, i8* %buf, i64 %totallen"@,
        "  store i8 0, i8* %last"@,
        "  ret i8* %buf"@,
        "}"@,
    ]
}

/// Emits the runtime declarations and the `@concat` definition.
pub fn generate_runtime_declarations(output: &mut Vec<String>)
    ensures
        final(output).deep_view() == old(output).deep_view() + runtime_decl_lines(),
{
    let ghost pre = output.deep_view();
    push_line(output, "");
    push_line(output, "declare double @fmod(double, double)");
    push_line(output, "declare double @pow(double, double)");
    push_line(output, "declare void @llvm.memcpy.p0i8.p0i8.i64(i8*, i8*, i64, i1)");
    push_line(output, "define i8* @concat(i8* %s1, i8* %s2) {");
    push_line(output, "entry:");
    push_line(output, "  %len1 = call i64 @strlen(i8* %s1)");
    push_line(output, "  %len2 = call i64 @strlen(i8* %s2)");
    push_line(output, "  %totallen = add i64 %len1, %len2");
    push_line(output, "  %totallen1 = add i64 %totallen, 1");
    push_line(output, "  %buf = call i8* @malloc(i64 %totallen1)");
    push_line(output, "  call void @llvm.memcpy.p0i8.p0i8.i64(i8* %buf, i8* %s1, i64 %len1, i1 false)");
    push_line(output, "  %buf_offset = getelementptr i8, i8* %buf, i64 %len1");
    push_line(output, "  call void @llvm.memcpy.p0i8.p0i8.i64(i8* %buf_offset, i8* %s2, i64 %len2, i1 false)");
    push_line(output, "  %last = getelementptr i8, i8* %buf, i64 %totallen");
    push_line(output, "  store i8 0, i8* %last");
    push_line(output, "  ret i8* %buf");
    push_line(output, "}");
    proof {
        assert(output.deep_view() =~= pre + runtime_decl_lines());
    }
}

/// The `printf` call for one value under the given format tag.
pub open spec fn printf_line(value: Seq<char>, fmt: Seq<char>) -> Seq<char> {
    if fmt == "%f"@ {
        "call i32 (ptr, ...) @printf(ptr @.str.f, double "@ + value + ")"@
    } else if fmt == "%d"@ {
        "call i32 (ptr, ...) @printf(ptr @.str.d, i32 "@ + value + ")"@
    } else {
        "call i32 (ptr, ...) @printf(ptr @.str.s, ptr "@ + value + ")"@
    }
}

/// Emits a `printf` call for the value, choosing the constant by format tag.
pub fn generate_printf(context: &mut CodegenCtx, value: &str, fmt: &str)
    requires
        old(context).wf(),
    ensures
        final(context)@ == g_line(old(context)@, printf_line(value@, fmt@)),
        final(context).wf(),
{
    let line = if str_eq(fmt, "%f") {
        cat3("call i32 (ptr, ...) @printf(ptr @.str.f, double ", value, ")")
    } else if str_eq(fmt, "%d") {
        cat3("call i32 (ptr, ...) @printf(ptr @.str.d, i32 ", value, ")")
    } else {
        cat3("call i32 (ptr, ...) @printf(ptr @.str.s, ptr ", value, ")")
    };
    context.append_line(line);
}

/// Pushes one literal line.
fn push_line(output: &mut Vec<String>, line: &str)
    ensures
        final(output).deep_view() == old(output).deep_view().push(line@),
{
    let ghost pre = output.deep_view();
    output.push(String::from_str(line));
    proof {
        assert(output.deep_view() =~= pre.push(line@));
    }
}

} // verus!
