//! Status codes of the OpenCL runtime and their names.
//!
//! Every call to the device answers with a signed 32-bit status. Zero is success;
//! the negative values are fixed by the OpenCL standard and listed here under
//! the names that the standard gives them.
use vstd::prelude::*;

verus! {
pub const CL_SUCCESS: i32 = 0;
pub const CL_DEVICE_NOT_FOUND: i32 = -1;
pub const CL_DEVICE_NOT_AVAILABLE: i32 = -2;
pub const CL_COMPILER_NOT_AVAILABLE: i32 = -3;
pub const CL_MEM_OBJECT_ALLOCATION_FAILURE: i32 = -4;
pub const CL_OUT_OF_RESOURCES: i32 = -5;
pub const CL_OUT_OF_HOST_MEMORY: i32 = -6;
pub const CL_PROFILING_INFO_NOT_AVAILABLE: i32 = -7;
pub const CL_MEM_COPY_OVERLAP: i32 = -8;
pub const CL_IMAGE_FORMAT_MISMATCH: i32 = -9;
pub const CL_IMAGE_FORMAT_NOT_SUPPORTED: i32 = -10;
pub const CL_BUILD_PROGRAM_FAILURE: i32 = -11;
pub const CL_MAP_FAILURE: i32 = -12;
pub const CL_MISALIGNED_SUB_BUFFER_OFFSET: i32 = -13;
pub const CL_EXEC_STATUS_ERROR_FOR_EVENTS_IN_WAIT_LIST: i32 = -14;
pub const CL_COMPILE_PROGRAM_FAILURE: i32 = -15;
pub const CL_LINKER_NOT_AVAILABLE: i32 = -16;
pub const CL_LINK_PROGRAM_FAILURE: i32 = -17;
pub const CL_DEVICE_PARTITION_FAILED: i32 = -18;
pub const CL_KERNEL_ARG_INFO_NOT_AVAILABLE: i32 = -19;
pub const CL_INVALID_VALUE: i32 = -30;
pub const CL_INVALID_DEVICE_TYPE: i32 = -31;
pub const CL_INVALID_PLATFORM: i32 = -32;
pub const CL_INVALID_DEVICE: i32 = -33;
pub const CL_INVALID_CONTEXT: i32 = -34;
pub const CL_INVALID_QUEUE_PROPERTIES: i32 = -35;
pub const CL_INVALID_COMMAND_QUEUE: i32 = -36;
pub const CL_INVALID_HOST_PTR: i32 = -37;
pub const CL_INVALID_MEM_OBJECT: i32 = -38;
pub const CL_INVALID_IMAGE_FORMAT_DESCRIPTOR: i32 = -39;
pub const CL_INVALID_IMAGE_SIZE: i32 = -40;
pub const CL_INVALID_SAMPLER: i32 = -41;
pub const CL_INVALID_BINARY: i32 = -42;
pub const CL_INVALID_BUILD_OPTIONS: i32 = -43;
pub const CL_INVALID_PROGRAM: i32 = -44;
pub const CL_INVALID_PROGRAM_EXECUTABLE: i32 = -45;
pub const CL_INVALID_KERNEL_NAME: i32 = -46;
pub const CL_INVALID_KERNEL_DEFINITION: i32 = -47;
pub const CL_INVALID_KERNEL: i32 = -48;
pub const CL_INVALID_ARG_INDEX: i32 = -49;
pub const CL_INVALID_ARG_VALUE: i32 = -50;
pub const CL_INVALID_ARG_SIZE: i32 = -51;
pub const CL_INVALID_KERNEL_ARGS: i32 = -52;
pub const CL_INVALID_WORK_DIMENSION: i32 = -53;
pub const CL_INVALID_WORK_GROUP_SIZE: i32 = -54;
pub const CL_INVALID_WORK_ITEM_SIZE: i32 = -55;
pub const CL_INVALID_GLOBAL_OFFSET: i32 = -56;
pub const CL_INVALID_EVENT_WAIT_LIST: i32 = -57;
pub const CL_INVALID_EVENT: i32 = -58;
pub const CL_INVALID_OPERATION: i32 = -59;
pub const CL_INVALID_GL_OBJECT: i32 = -60;
pub const CL_INVALID_BUFFER_SIZE: i32 = -61;
pub const CL_INVALID_MIP_LEVEL: i32 = -62;
pub const CL_INVALID_GLOBAL_WORK_SIZE: i32 = -63;
pub const CL_INVALID_PROPERTY: i32 = -64;
pub const CL_INVALID_IMAGE_DESCRIPTOR: i32 = -65;
pub const CL_INVALID_COMPILER_OPTIONS: i32 = -66;
pub const CL_INVALID_LINKER_OPTIONS: i32 = -67;
pub const CL_INVALID_DEVICE_PARTITION_COUNT: i32 = -68;
pub const CL_INVALID_PIPE_SIZE: i32 = -69;
pub const CL_INVALID_DEVICE_QUEUE: i32 = -70;
pub const CL_INVALID_GL_SHAREGROUP_REFERENCE_KHR: i32 = -1000;
pub const CL_PLATFORM_NOT_FOUND_KHR: i32 = -1001;

/// Whether `code` reports a call that went through.
pub open spec fn succeeded(code: i32) -> bool {
    code == CL_SUCCESS
}

/// The standard's name for a status code, and `UNKNOWN_ERROR` for a number
/// that the standard does not assign.
pub open spec fn error_name(code: i32) -> Seq<char> {
    if code == CL_SUCCESS {
        "CL_SUCCESS"@
    } else if code == CL_DEVICE_NOT_FOUND {
        "CL_DEVICE_NOT_FOUND"@
    } else if code == CL_DEVICE_NOT_AVAILABLE {
        "CL_DEVICE_NOT_AVAILABLE"@
    } else if code == CL_COMPILER_NOT_AVAILABLE {
        "CL_COMPILER_NOT_AVAILABLE"@
    } else if code == CL_MEM_OBJECT_ALLOCATION_FAILURE {
        "CL_MEM_OBJECT_ALLOCATION_FAILURE"@
    } else if code == CL_OUT_OF_RESOURCES {
        "CL_OUT_OF_RESOURCES"@
    } else if code == CL_OUT_OF_HOST_MEMORY {
        "CL_OUT_OF_HOST_MEMORY"@
    } else if code == CL_PROFILING_INFO_NOT_AVAILABLE {
        "CL_PROFILING_INFO_NOT_AVAILABLE"@
    } else if code == CL_MEM_COPY_OVERLAP {
        "CL_MEM_COPY_OVERLAP"@
    } else if code == CL_IMAGE_FORMAT_MISMATCH {
        "CL_IMAGE_FORMAT_MISMATCH"@
    } else if code == CL_IMAGE_FORMAT_NOT_SUPPORTED {
        "CL_IMAGE_FORMAT_NOT_SUPPORTED"@
    } else if code == CL_BUILD_PROGRAM_FAILURE {
        "CL_BUILD_PROGRAM_FAILURE"@
    } else if code == CL_MAP_FAILURE {
        "CL_MAP_FAILURE"@
    } else if code == CL_MISALIGNED_SUB_BUFFER_OFFSET {
        "CL_MISALIGNED_SUB_BUFFER_OFFSET"@
    } else if code == CL_EXEC_STATUS_ERROR_FOR_EVENTS_IN_WAIT_LIST {
        "CL_EXEC_STATUS_ERROR_FOR_EVENTS_IN_WAIT_LIST"@
    } else if code == CL_COMPILE_PROGRAM_FAILURE {
        "CL_COMPILE_PROGRAM_FAILURE"@
    } else if code == CL_LINKER_NOT_AVAILABLE {
        "CL_LINKER_NOT_AVAILABLE"@
    } else if code == CL_LINK_PROGRAM_FAILURE {
        "CL_LINK_PROGRAM_FAILURE"@
    } else if code == CL_DEVICE_PARTITION_FAILED {
        "CL_DEVICE_PARTITION_FAILED"@
    } else if code == CL_KERNEL_ARG_INFO_NOT_AVAILABLE {
        "CL_KERNEL_ARG_INFO_NOT_AVAILABLE"@
    } else if code == CL_INVALID_VALUE {
        "CL_INVALID_VALUE"@
    } else if code == CL_INVALID_DEVICE_TYPE {
        "CL_INVALID_DEVICE_TYPE"@
    } else if code == CL_INVALID_PLATFORM {
        "CL_INVALID_PLATFORM"@
    } else if code == CL_INVALID_DEVICE {
        "CL_INVALID_DEVICE"@
    } else if code == CL_INVALID_CONTEXT {
        "CL_INVALID_CONTEXT"@
    } else if code == CL_INVALID_QUEUE_PROPERTIES {
        "CL_INVALID_QUEUE_PROPERTIES"@
    } else if code == CL_INVALID_COMMAND_QUEUE {
        "CL_INVALID_COMMAND_QUEUE"@
    } else if code == CL_INVALID_HOST_PTR {
        "CL_INVALID_HOST_PTR"@
    } else if code == CL_INVALID_MEM_OBJECT {
        "CL_INVALID_MEM_OBJECT"@
    } else if code == CL_INVALID_IMAGE_FORMAT_DESCRIPTOR {
        "CL_INVALID_IMAGE_FORMAT_DESCRIPTOR"@
    } else if code == CL_INVALID_IMAGE_SIZE {
        "CL_INVALID_IMAGE_SIZE"@
    } else if code == CL_INVALID_SAMPLER {
        "CL_INVALID_SAMPLER"@
    } else if code == CL_INVALID_BINARY {
        "CL_INVALID_BINARY"@
    } else if code == CL_INVALID_BUILD_OPTIONS {
        "CL_INVALID_BUILD_OPTIONS"@
    } else if code == CL_INVALID_PROGRAM {
        "CL_INVALID_PROGRAM"@
    } else if code == CL_INVALID_PROGRAM_EXECUTABLE {
        "CL_INVALID_PROGRAM_EXECUTABLE"@
    } else if code == CL_INVALID_KERNEL_NAME {
        "CL_INVALID_KERNEL_NAME"@
    } else if code == CL_INVALID_KERNEL_DEFINITION {
        "CL_INVALID_KERNEL_DEFINITION"@
    } else if code == CL_INVALID_KERNEL {
        "CL_INVALID_KERNEL"@
    } else if code == CL_INVALID_ARG_INDEX {
        "CL_INVALID_ARG_INDEX"@
    } else if code == CL_INVALID_ARG_VALUE {
        "CL_INVALID_ARG_VALUE"@
    } else if code == CL_INVALID_ARG_SIZE {
        "CL_INVALID_ARG_SIZE"@
    } else if code == CL_INVALID_KERNEL_ARGS {
        "CL_INVALID_KERNEL_ARGS"@
    } else if code == CL_INVALID_WORK_DIMENSION {
        "CL_INVALID_WORK_DIMENSION"@
    } else if code == CL_INVALID_WORK_GROUP_SIZE {
        "CL_INVALID_WORK_GROUP_SIZE"@
    } else if code == CL_INVALID_WORK_ITEM_SIZE {
        "CL_INVALID_WORK_ITEM_SIZE"@
    } else if code == CL_INVALID_GLOBAL_OFFSET {
        "CL_INVALID_GLOBAL_OFFSET"@
    } else if code == CL_INVALID_EVENT_WAIT_LIST {
        "CL_INVALID_EVENT_WAIT_LIST"@
    } else if code == CL_INVALID_EVENT {
        "CL_INVALID_EVENT"@
    } else if code == CL_INVALID_OPERATION {
        "CL_INVALID_OPERATION"@
    } else if code == CL_INVALID_GL_OBJECT {
        "CL_INVALID_GL_OBJECT"@
    } else if code == CL_INVALID_BUFFER_SIZE {
        "CL_INVALID_BUFFER_SIZE"@
    } else if code == CL_INVALID_MIP_LEVEL {
        "CL_INVALID_MIP_LEVEL"@
    } else if code == CL_INVALID_GLOBAL_WORK_SIZE {
        "CL_INVALID_GLOBAL_WORK_SIZE"@
    } else if code == CL_INVALID_PROPERTY {
        "CL_INVALID_PROPERTY"@
    } else if code == CL_INVALID_IMAGE_DESCRIPTOR {
        "CL_INVALID_IMAGE_DESCRIPTOR"@
    } else if code == CL_INVALID_COMPILER_OPTIONS {
        "CL_INVALID_COMPILER_OPTIONS"@
    } else if code == CL_INVALID_LINKER_OPTIONS {
        "CL_INVALID_LINKER_OPTIONS"@
    } else if code == CL_INVALID_DEVICE_PARTITION_COUNT {
        "CL_INVALID_DEVICE_PARTITION_COUNT"@
    } else if code == CL_INVALID_PIPE_SIZE {
        "CL_INVALID_PIPE_SIZE"@
    } else if code == CL_INVALID_DEVICE_QUEUE {
        "CL_INVALID_DEVICE_QUEUE"@
    } else if code == CL_INVALID_GL_SHAREGROUP_REFERENCE_KHR {
        "CL_INVALID_GL_SHAREGROUP_REFERENCE_KHR"@
    } else if code == CL_PLATFORM_NOT_FOUND_KHR {
        "CL_PLATFORM_NOT_FOUND_KHR"@
    } else {
        "UNKNOWN_ERROR"@
    }
}

/// Whether the standard assigns a name to `code`.
pub open spec fn is_known_code(code: i32) -> bool {
    (-19 <= code <= 0) || (-70 <= code <= -30) || code == -1000 || code == -1001
}

/// Tells whether a status reports success.
pub fn is_success(code: i32) -> (ok: bool)
    ensures
        ok == succeeded(code),
{
    code == CL_SUCCESS
}

/// The name of a status code, for messages.
pub fn error_text(error_code: i32) -> (name: &'static str)
    ensures
        name@ == error_name(error_code),
        !is_known_code(error_code) ==> name@ == "UNKNOWN_ERROR"@,
{
    if error_code == CL_SUCCESS {
        "CL_SUCCESS"
    } else if error_code == CL_DEVICE_NOT_FOUND {
        "CL_DEVICE_NOT_FOUND"
    } else if error_code == CL_DEVICE_NOT_AVAILABLE {
        "CL_DEVICE_NOT_AVAILABLE"
    } else if error_code == CL_COMPILER_NOT_AVAILABLE {
        "CL_COMPILER_NOT_AVAILABLE"
    } else if error_code == CL_MEM_OBJECT_ALLOCATION_FAILURE {
        "CL_MEM_OBJECT_ALLOCATION_FAILURE"
    } else if error_code == CL_OUT_OF_RESOURCES {
        "CL_OUT_OF_RESOURCES"
    } else if error_code == CL_OUT_OF_HOST_MEMORY {
        "CL_OUT_OF_HOST_MEMORY"
    } else if error_code == CL_PROFILING_INFO_NOT_AVAILABLE {
        "CL_PROFILING_INFO_NOT_AVAILABLE"
    } else if error_code == CL_MEM_COPY_OVERLAP {
        "CL_MEM_COPY_OVERLAP"
    } else if error_code == CL_IMAGE_FORMAT_MISMATCH {
        "CL_IMAGE_FORMAT_MISMATCH"
    } else if error_code == CL_IMAGE_FORMAT_NOT_SUPPORTED {
        "CL_IMAGE_FORMAT_NOT_SUPPORTED"
    } else if error_code == CL_BUILD_PROGRAM_FAILURE {
        "CL_BUILD_PROGRAM_FAILURE"
    } else if error_code == CL_MAP_FAILURE {
        "CL_MAP_FAILURE"
    } else if error_code == CL_MISALIGNED_SUB_BUFFER_OFFSET {
        "CL_MISALIGNED_SUB_BUFFER_OFFSET"
    } else if error_code == CL_EXEC_STATUS_ERROR_FOR_EVENTS_IN_WAIT_LIST {
        "CL_EXEC_STATUS_ERROR_FOR_EVENTS_IN_WAIT_LIST"
    } else if error_code == CL_COMPILE_PROGRAM_FAILURE {
        "CL_COMPILE_PROGRAM_FAILURE"
    } else if error_code == CL_LINKER_NOT_AVAILABLE {
        "CL_LINKER_NOT_AVAILABLE"
    } else if error_code == CL_LINK_PROGRAM_FAILURE {
        "CL_LINK_PROGRAM_FAILURE"
    } else if error_code == CL_DEVICE_PARTITION_FAILED {
        "CL_DEVICE_PARTITION_FAILED"
    } else if error_code == CL_KERNEL_ARG_INFO_NOT_AVAILABLE {
        "CL_KERNEL_ARG_INFO_NOT_AVAILABLE"
    } else if error_code == CL_INVALID_VALUE {
        "CL_INVALID_VALUE"
    } else if error_code == CL_INVALID_DEVICE_TYPE {
        "CL_INVALID_DEVICE_TYPE"
    } else if error_code == CL_INVALID_PLATFORM {
        "CL_INVALID_PLATFORM"
    } else if error_code == CL_INVALID_DEVICE {
        "CL_INVALID_DEVICE"
    } else if error_code == CL_INVALID_CONTEXT {
        "CL_INVALID_CONTEXT"
    } else if error_code == CL_INVALID_QUEUE_PROPERTIES {
        "CL_INVALID_QUEUE_PROPERTIES"
    } else if error_code == CL_INVALID_COMMAND_QUEUE {
        "CL_INVALID_COMMAND_QUEUE"
    } else if error_code == CL_INVALID_HOST_PTR {
        "CL_INVALID_HOST_PTR"
    } else if error_code == CL_INVALID_MEM_OBJECT {
        "CL_INVALID_MEM_OBJECT"
    } else if error_code == CL_INVALID_IMAGE_FORMAT_DESCRIPTOR {
        "CL_INVALID_IMAGE_FORMAT_DESCRIPTOR"
    } else if error_code == CL_INVALID_IMAGE_SIZE {
        "CL_INVALID_IMAGE_SIZE"
    } else if error_code == CL_INVALID_SAMPLER {
        "CL_INVALID_SAMPLER"
    } else if error_code == CL_INVALID_BINARY {
        "CL_INVALID_BINARY"
    } else if error_code == CL_INVALID_BUILD_OPTIONS {
        "CL_INVALID_BUILD_OPTIONS"
    } else if error_code == CL_INVALID_PROGRAM {
        "CL_INVALID_PROGRAM"
    } else if error_code == CL_INVALID_PROGRAM_EXECUTABLE {
        "CL_INVALID_PROGRAM_EXECUTABLE"
    } else if error_code == CL_INVALID_KERNEL_NAME {
        "CL_INVALID_KERNEL_NAME"
    } else if error_code == CL_INVALID_KERNEL_DEFINITION {
        "CL_INVALID_KERNEL_DEFINITION"
    } else if error_code == CL_INVALID_KERNEL {
        "CL_INVALID_KERNEL"
    } else if error_code == CL_INVALID_ARG_INDEX {
        "CL_INVALID_ARG_INDEX"
    } else if error_code == CL_INVALID_ARG_VALUE {
        "CL_INVALID_ARG_VALUE"
    } else if error_code == CL_INVALID_ARG_SIZE {
        "CL_INVALID_ARG_SIZE"
    } else if error_code == CL_INVALID_KERNEL_ARGS {
        "CL_INVALID_KERNEL_ARGS"
    } else if error_code == CL_INVALID_WORK_DIMENSION {
        "CL_INVALID_WORK_DIMENSION"
    } else if error_code == CL_INVALID_WORK_GROUP_SIZE {
        "CL_INVALID_WORK_GROUP_SIZE"
    } else if error_code == CL_INVALID_WORK_ITEM_SIZE {
        "CL_INVALID_WORK_ITEM_SIZE"
    } else if error_code == CL_INVALID_GLOBAL_OFFSET {
        "CL_INVALID_GLOBAL_OFFSET"
    } else if error_code == CL_INVALID_EVENT_WAIT_LIST {
        "CL_INVALID_EVENT_WAIT_LIST"
    } else if error_code == CL_INVALID_EVENT {
        "CL_INVALID_EVENT"
    } else if error_code == CL_INVALID_OPERATION {
        "CL_INVALID_OPERATION"
    } else if error_code == CL_INVALID_GL_OBJECT {
        "CL_INVALID_GL_OBJECT"
    } else if error_code == CL_INVALID_BUFFER_SIZE {
        "CL_INVALID_BUFFER_SIZE"
    } else if error_code == CL_INVALID_MIP_LEVEL {
        "CL_INVALID_MIP_LEVEL"
    } else if error_code == CL_INVALID_GLOBAL_WORK_SIZE {
        "CL_INVALID_GLOBAL_WORK_SIZE"
    } else if error_code == CL_INVALID_PROPERTY {
        "CL_INVALID_PROPERTY"
    } else if error_code == CL_INVALID_IMAGE_DESCRIPTOR {
        "CL_INVALID_IMAGE_DESCRIPTOR"
    } else if error_code == CL_INVALID_COMPILER_OPTIONS {
        "CL_INVALID_COMPILER_OPTIONS"
    } else if error_code == CL_INVALID_LINKER_OPTIONS {
        "CL_INVALID_LINKER_OPTIONS"
    } else if error_code == CL_INVALID_DEVICE_PARTITION_COUNT {
        "CL_INVALID_DEVICE_PARTITION_COUNT"
    } else if error_code == CL_INVALID_PIPE_SIZE {
        "CL_INVALID_PIPE_SIZE"
    } else if error_code == CL_INVALID_DEVICE_QUEUE {
        "CL_INVALID_DEVICE_QUEUE"
    } else if error_code == CL_INVALID_GL_SHAREGROUP_REFERENCE_KHR {
        "CL_INVALID_GL_SHAREGROUP_REFERENCE_KHR"
    } else if error_code == CL_PLATFORM_NOT_FOUND_KHR {
        "CL_PLATFORM_NOT_FOUND_KHR"
    } else {
        "UNKNOWN_ERROR"
    }
}

/// The character of `name` at position `i`, and a blank where the name is
/// shorter.
pub open spec fn char_at(name: Seq<char>, i: int) -> char {
    if 0 <= i < name.len() {
        name[i]
    } else {
        ' '
    }
}

/// What tells the names of the status codes apart: the length of a name and
/// three of its characters.
pub open spec fn mark(name: Seq<char>) -> (nat, char, char, char) {
    (name.len(), char_at(name, 3), char_at(name, 11), char_at(name, 18))
}

/// No two status codes share a name, and no code that the standard assigns
/// is called `UNKNOWN_ERROR`: a name in a message tells which code it was.
pub proof fn law_names_differ(a: i32, b: i32)
    requires
        is_known_code(a),
        is_known_code(b),
        a != b,
    ensures
        error_name(a) != error_name(b),
        error_name(a) != "UNKNOWN_ERROR"@,
{
    reveal_strlit("CL_SUCCESS");
    reveal_strlit("CL_DEVICE_NOT_FOUND");
    reveal_strlit("CL_DEVICE_NOT_AVAILABLE");
    reveal_strlit("CL_COMPILER_NOT_AVAILABLE");
    reveal_strlit("CL_MEM_OBJECT_ALLOCATION_FAILURE");
    reveal_strlit("CL_OUT_OF_RESOURCES");
    reveal_strlit("CL_OUT_OF_HOST_MEMORY");
    reveal_strlit("CL_PROFILING_INFO_NOT_AVAILABLE");
    reveal_strlit("CL_MEM_COPY_OVERLAP");
    reveal_strlit("CL_IMAGE_FORMAT_MISMATCH");
    reveal_strlit("CL_IMAGE_FORMAT_NOT_SUPPORTED");
    reveal_strlit("CL_BUILD_PROGRAM_FAILURE");
    reveal_strlit("CL_MAP_FAILURE");
    reveal_strlit("CL_MISALIGNED_SUB_BUFFER_OFFSET");
    reveal_strlit("CL_EXEC_STATUS_ERROR_FOR_EVENTS_IN_WAIT_LIST");
    reveal_strlit("CL_COMPILE_PROGRAM_FAILURE");
    reveal_strlit("CL_LINKER_NOT_AVAILABLE");
    reveal_strlit("CL_LINK_PROGRAM_FAILURE");
    reveal_strlit("CL_DEVICE_PARTITION_FAILED");
    reveal_strlit("CL_KERNEL_ARG_INFO_NOT_AVAILABLE");
    reveal_strlit("CL_INVALID_VALUE");
    reveal_strlit("CL_INVALID_DEVICE_TYPE");
    reveal_strlit("CL_INVALID_PLATFORM");
    reveal_strlit("CL_INVALID_DEVICE");
    reveal_strlit("CL_INVALID_CONTEXT");
    reveal_strlit("CL_INVALID_QUEUE_PROPERTIES");
    reveal_strlit("CL_INVALID_COMMAND_QUEUE");
    reveal_strlit("CL_INVALID_HOST_PTR");
    reveal_strlit("CL_INVALID_MEM_OBJECT");
    reveal_strlit("CL_INVALID_IMAGE_FORMAT_DESCRIPTOR");
    reveal_strlit("CL_INVALID_IMAGE_SIZE");
    reveal_strlit("CL_INVALID_SAMPLER");
    reveal_strlit("CL_INVALID_BINARY");
    reveal_strlit("CL_INVALID_BUILD_OPTIONS");
    reveal_strlit("CL_INVALID_PROGRAM");
    reveal_strlit("CL_INVALID_PROGRAM_EXECUTABLE");
    reveal_strlit("CL_INVALID_KERNEL_NAME");
    reveal_strlit("CL_INVALID_KERNEL_DEFINITION");
    reveal_strlit("CL_INVALID_KERNEL");
    reveal_strlit("CL_INVALID_ARG_INDEX");
    reveal_strlit("CL_INVALID_ARG_VALUE");
    reveal_strlit("CL_INVALID_ARG_SIZE");
    reveal_strlit("CL_INVALID_KERNEL_ARGS");
    reveal_strlit("CL_INVALID_WORK_DIMENSION");
    reveal_strlit("CL_INVALID_WORK_GROUP_SIZE");
    reveal_strlit("CL_INVALID_WORK_ITEM_SIZE");
    reveal_strlit("CL_INVALID_GLOBAL_OFFSET");
    reveal_strlit("CL_INVALID_EVENT_WAIT_LIST");
    reveal_strlit("CL_INVALID_EVENT");
    reveal_strlit("CL_INVALID_OPERATION");
    reveal_strlit("CL_INVALID_GL_OBJECT");
    reveal_strlit("CL_INVALID_BUFFER_SIZE");
    reveal_strlit("CL_INVALID_MIP_LEVEL");
    reveal_strlit("CL_INVALID_GLOBAL_WORK_SIZE");
    reveal_strlit("CL_INVALID_PROPERTY");
    reveal_strlit("CL_INVALID_IMAGE_DESCRIPTOR");
    reveal_strlit("CL_INVALID_COMPILER_OPTIONS");
    reveal_strlit("CL_INVALID_LINKER_OPTIONS");
    reveal_strlit("CL_INVALID_DEVICE_PARTITION_COUNT");
    reveal_strlit("CL_INVALID_PIPE_SIZE");
    reveal_strlit("CL_INVALID_DEVICE_QUEUE");
    reveal_strlit("CL_INVALID_GL_SHAREGROUP_REFERENCE_KHR");
    reveal_strlit("CL_PLATFORM_NOT_FOUND_KHR");
    reveal_strlit("UNKNOWN_ERROR");
    assert(mark(error_name(a)) != mark(error_name(b)));
    assert(mark(error_name(a)) != mark("UNKNOWN_ERROR"@));
}

} // verus!
