//! The text of the system's error codes.

use crate::text::{decimal, push_decimal};
use vstd::prelude::*;
use vstd::string::StringExecFns;

verus! {

/// The name and the meaning of error code `code`, where it is one of the
/// codes that have a text here.
pub open spec fn known_error_of(code: u32) -> Option<Seq<char>> {
    if code == 0 {
        Some("NO_ERROR: The operation completed successfully."@)
    }     else if code == 1 {
        Some("ERROR_INVALID_FUNCTION: Incorrect function."@)
    }     else if code == 2 {
        Some("ERROR_FILE_NOT_FOUND: The system cannot find the file specified."@)
    }     else if code == 3 {
        Some("ERROR_PATH_NOT_FOUND: The system cannot find the path specified."@)
    }     else if code == 4 {
        Some("ERROR_TOO_MANY_OPEN_FILES: The system cannot open the file."@)
    }     else if code == 5 {
        Some("ERROR_ACCESS_DENIED: Access is denied."@)
    }     else if code == 6 {
        Some("ERROR_INVALID_HANDLE: The handle is invalid."@)
    }     else if code == 7 {
        Some("ERROR_ARENA_TRASHED: The storage control blocks were destroyed."@)
    }     else if code == 8 {
        Some("ERROR_NOT_ENOUGH_MEMORY: Not enough memory resources are available to process this command."@)
    }     else if code == 9 {
        Some("ERROR_INVALID_BLOCK: The storage control block address is invalid."@)
    }     else if code == 10 {
        Some("ERROR_BAD_ENVIRONMENT: The environment is incorrect."@)
    }     else if code == 11 {
        Some("ERROR_BAD_FORMAT: An attempt was made to load a program with an incorrect format."@)
    }     else if code == 12 {
        Some("ERROR_INVALID_ACCESS: The access code is invalid."@)
    }     else if code == 13 {
        Some("ERROR_INVALID_DATA: The data is invalid."@)
    }     else if code == 14 {
        Some("ERROR_OUTOFMEMORY: Not enough storage is available to complete this operation."@)
    }     else if code == 15 {
        Some("ERROR_INVALID_DRIVE: The system cannot find the drive specified."@)
    }     else if code == 16 {
        Some("ERROR_CURRENT_DIRECTORY: The directory cannot be removed."@)
    }     else if code == 17 {
        Some("ERROR_NOT_SAME_DEVICE: The system cannot move the file to a different disk drive."@)
    }     else if code == 18 {
        Some("ERROR_NO_MORE_FILES: There are no more files."@)
    }     else if code == 19 {
        Some("ERROR_WRITE_PROTECT: The media is write protected."@)
    }     else if code == 20 {
        Some("ERROR_BAD_UNIT: The system cannot find the device specified."@)
    }     else if code == 21 {
        Some("ERROR_NOT_READY: The device is not ready."@)
    }     else if code == 22 {
        Some("ERROR_BAD_COMMAND: The device does not recognize the command."@)
    }     else if code == 23 {
        Some("ERROR_CRC: Data error (cyclic redundancy check)."@)
    }     else if code == 24 {
        Some("ERROR_BAD_LENGTH: The program issued a command but the command length is incorrect."@)
    }     else if code == 25 {
        Some("ERROR_SEEK: The drive cannot locate a specific area or track on the disk."@)
    }     else if code == 26 {
        Some("ERROR_NOT_DOS_DISK: The specified disk or diskette cannot be accessed."@)
    }     else if code == 27 {
        Some("ERROR_SECTOR_NOT_FOUND: The drive cannot find the sector requested."@)
    }     else if code == 28 {
        Some("ERROR_OUT_OF_PAPER: The printer is out of paper."@)
    }     else if code == 29 {
        Some("ERROR_WRITE_FAULT: The system cannot write to the specified device."@)
    }     else if code == 30 {
        Some("ERROR_READ_FAULT: The system cannot read from the specified device."@)
    }     else if code == 31 {
        Some("ERROR_GEN_FAILURE: A device attached to the system is not functioning."@)
    }     else if code == 32 {
        Some("ERROR_SHARING_VIOLATION: The process cannot access the file because it is being used by another process."@)
    }     else if code == 33 {
        Some("ERROR_LOCK_VIOLATION: The process cannot access the file because another process has locked a portion of the file."@)
    }     else if code == 34 {
        Some("ERROR_WRONG_DISK: The wrong diskette is in the drive. Insert %2 (Volume Serial Number: %3) into drive %1."@)
    }     else if code == 36 {
        Some("ERROR_SHARING_BUFFER_EXCEEDED: Too many files opened for sharing."@)
    }     else if code == 38 {
        Some("ERROR_HANDLE_EOF: Reached the end of the file."@)
    }     else if code == 39 {
        Some("ERROR_HANDLE_DISK_FULL: The disk is full."@)
    }     else if code == 50 {
        Some("ERROR_NOT_SUPPORTED: The request is not supported."@)
    }     else if code == 51 {
        Some("ERROR_REM_NOT_LIST: Windows cannot find the network path. Verify that the network path is correct and the destination computer is not busy or turned off. If Windows still cannot find the network path, contact your network administrator."@)
    }     else if code == 52 {
        Some("ERROR_DUP_NAME: You were not connected because a duplicate name exists on the network. If joining a domain, go to System in Control Panel to change the computer name and try again. If joining a workgroup, choose another workgroup name."@)
    }     else if code == 53 {
        Some("ERROR_BAD_NETPATH: The network path was not found."@)
    }     else if code == 54 {
        Some("ERROR_NETWORK_BUSY: The network is busy."@)
    }     else if code == 55 {
        Some("ERROR_DEV_NOT_EXIST: The specified network resource or device is no longer available."@)
    }     else if code == 56 {
        Some("ERROR_TOO_MANY_CMDS: The network BIOS command limit has been reached."@)
    }     else if code == 57 {
        Some("ERROR_ADAP_HDW_ERR: A network adapter hardware error occurred."@)
    }     else if code == 58 {
        Some("ERROR_BAD_NET_RESP: The specified server cannot perform the requested operation."@)
    }     else if code == 59 {
        Some("ERROR_UNEXP_NET_ERR: An unexpected network error occurred."@)
    }     else if code == 60 {
        Some("ERROR_BAD_REM_ADAP: The remote adapter is not compatible."@)
    }     else if code == 61 {
        Some("ERROR_PRINTQ_FULL: The printer queue is full."@)
    }     else if code == 62 {
        Some("ERROR_NO_SPOOL_SPACE: Space to store the file waiting to be printed is not available on the server."@)
    }     else if code == 63 {
        Some("ERROR_PRINT_CANCELLED: Your file waiting to be printed was deleted."@)
    }     else if code == 64 {
        Some("ERROR_NETNAME_DELETED: The specified network name is no longer available."@)
    }     else if code == 65 {
        Some("ERROR_NETWORK_ACCESS_DENIED: Network access is denied."@)
    }     else if code == 66 {
        Some("ERROR_BAD_DEV_TYPE: The network resource type is not correct."@)
    }     else if code == 67 {
        Some("ERROR_BAD_NET_NAME: The network name cannot be found."@)
    }     else if code == 68 {
        Some("ERROR_TOO_MANY_NAMES: The name limit for the local computer network adapter card was exceeded."@)
    }     else if code == 69 {
        Some("ERROR_TOO_MANY_SESS: The network BIOS session limit was exceeded."@)
    }     else if code == 70 {
        Some("ERROR_SHARING_PAUSED: The remote server has been paused or is in the process of being started."@)
    }     else if code == 71 {
        Some("ERROR_REQ_NOT_ACCEP: No more connections can be made to this remote computer at this time because there are already as many connections as the computer can accept."@)
    }     else if code == 72 {
        Some("ERROR_REDIR_PAUSED: The specified printer or disk device has been paused."@)
    }     else if code == 80 {
        Some("ERROR_FILE_EXISTS: The file exists."@)
    }     else if code == 82 {
        Some("ERROR_CANNOT_MAKE: The directory or file cannot be created."@)
    }     else if code == 83 {
        Some("ERROR_FAIL_I24: Fail on INT 24."@)
    }     else if code == 84 {
        Some("ERROR_OUT_OF_STRUCTURES: Storage to process this request is not available."@)
    }     else if code == 85 {
        Some("ERROR_ALREADY_ASSIGNED: The local device name is already in use."@)
    }     else if code == 86 {
        Some("ERROR_INVALID_PASSWORD: The specified network password is not correct."@)
    }     else if code == 87 {
        Some("ERROR_INVALID_PARAMETER: The parameter is incorrect."@)
    }     else if code == 88 {
        Some("ERROR_NET_WRITE_FAULT: A write fault occurred on the network."@)
    }     else if code == 89 {
        Some("ERROR_NO_PROC_SLOTS: The system cannot start another process at this time."@)
    }     else if code == 100 {
        Some("ERROR_TOO_MANY_SEMAPHORES: Cannot create another system semaphore."@)
    } else {
        None
    }
}

/// The text for error code `code`: its name and meaning, or a note that the
/// code has no text yet.
pub open spec fn error_text_of(code: u32) -> Seq<char> {
    match known_error_of(code) {
        Some(text) => text,
        None => "TODO error WIN32_ERROR("@ + decimal(code as int) + ")"@,
    }
}

/// The result code under which the system files error code `code`: the
/// code itself where it is zero or has its top bit set, else its low 16 bits
/// with the marks of a failure of the system's own.
pub open spec fn result_of_code(code: u32) -> u32 {
    if code == 0 || code >= 0x8000_0000 {
        code
    } else {
        (code & 0xFFFF) | 0x8007_0000
    }
}

/// The error code that result code `result` was made of, as far as it can be
/// told: the low 16 bits where the result bears the marks of a failure of
/// the system's own, else the result as it is.
pub open spec fn code_of_result(result: u32) -> u32 {
    if result & 0xFFFF_0000 == 0x8007_0000 {
        result & 0xFFFF
    } else {
        result
    }
}

/// Filing an error code and reading it back gives the code, for every code
/// that fits in 16 bits.
pub proof fn code_survives_filing(code: u32)
    requires
        code <= 0xFFFF,
    ensures
        code_of_result(result_of_code(code)) == code,
{
    assert(code <= 0xFFFF ==> ((code & 0xFFFF) | 0x8007_0000) & 0xFFFF_0000 == 0x8007_0000 && ((code
        & 0xFFFF) | 0x8007_0000) & 0xFFFF == code && (code & 0xFFFF_0000 == 0x8007_0000) == false)
        by (bit_vector);
}

/// The bits of `result`, read as a number without sign.
fn unsigned(result: i32) -> (bits: u32)
    ensures
        bits == if result >= 0 {
            result as int
        } else {
            result + 0x1_0000_0000
        },
{
    if result >= 0 {
        result as u32
    } else {
        (result as i64 + 0x1_0000_0000) as u32
    }
}

/// The error code that the signed result code `result` was made of.
pub fn win32_code(result: i32) -> (code: u32)
    ensures
        code == code_of_result(
            if result >= 0 {
                result as u32
            } else {
                (result + 0x1_0000_0000) as u32
            },
        ),
{
    let bits = unsigned(result);
    if bits & 0xFFFF_0000 == 0x8007_0000 {
        bits & 0xFFFF
    } else {
        bits
    }
}

/// The error code that says a window class of that name exists already.
pub const ERROR_CLASS_ALREADY_EXISTS: u32 = 1410;

/// Whether registering a window class failed for good: the system gave no
/// token, and not because the class exists already.
pub fn class_registration_failed(class_token: u16, last_error: u32) -> (failed: bool)
    ensures
        failed == (class_token == 0 && last_error != ERROR_CLASS_ALREADY_EXISTS),
{
    class_token == 0 && last_error != ERROR_CLASS_ALREADY_EXISTS
}

/// The name and the meaning of error code `code`, where it has a text here.
pub fn known_error(code: u32) -> (text: Option<&'static str>)
    ensures
        text is Some <==> known_error_of(code) is Some,
        text is Some ==> text->0@ == known_error_of(code)->0,
{
    if code == 0 {
        Some("NO_ERROR: The operation completed successfully.")
    }     else if code == 1 {
        Some("ERROR_INVALID_FUNCTION: Incorrect function.")
    }     else if code == 2 {
        Some("ERROR_FILE_NOT_FOUND: The system cannot find the file specified.")
    }     else if code == 3 {
        Some("ERROR_PATH_NOT_FOUND: The system cannot find the path specified.")
    }     else if code == 4 {
        Some("ERROR_TOO_MANY_OPEN_FILES: The system cannot open the file.")
    }     else if code == 5 {
        Some("ERROR_ACCESS_DENIED: Access is denied.")
    }     else if code == 6 {
        Some("ERROR_INVALID_HANDLE: The handle is invalid.")
    }     else if code == 7 {
        Some("ERROR_ARENA_TRASHED: The storage control blocks were destroyed.")
    }     else if code == 8 {
        Some("ERROR_NOT_ENOUGH_MEMORY: Not enough memory resources are available to process this command.")
    }     else if code == 9 {
        Some("ERROR_INVALID_BLOCK: The storage control block address is invalid.")
    }     else if code == 10 {
        Some("ERROR_BAD_ENVIRONMENT: The environment is incorrect.")
    }     else if code == 11 {
        Some("ERROR_BAD_FORMAT: An attempt was made to load a program with an incorrect format.")
    }     else if code == 12 {
        Some("ERROR_INVALID_ACCESS: The access code is invalid.")
    }     else if code == 13 {
        Some("ERROR_INVALID_DATA: The data is invalid.")
    }     else if code == 14 {
        Some("ERROR_OUTOFMEMORY: Not enough storage is available to complete this operation.")
    }     else if code == 15 {
        Some("ERROR_INVALID_DRIVE: The system cannot find the drive specified.")
    }     else if code == 16 {
        Some("ERROR_CURRENT_DIRECTORY: The directory cannot be removed.")
    }     else if code == 17 {
        Some("ERROR_NOT_SAME_DEVICE: The system cannot move the file to a different disk drive.")
    }     else if code == 18 {
        Some("ERROR_NO_MORE_FILES: There are no more files.")
    }     else if code == 19 {
        Some("ERROR_WRITE_PROTECT: The media is write protected.")
    }     else if code == 20 {
        Some("ERROR_BAD_UNIT: The system cannot find the device specified.")
    }     else if code == 21 {
        Some("ERROR_NOT_READY: The device is not ready.")
    }     else if code == 22 {
        Some("ERROR_BAD_COMMAND: The device does not recognize the command.")
    }     else if code == 23 {
        Some("ERROR_CRC: Data error (cyclic redundancy check).")
    }     else if code == 24 {
        Some("ERROR_BAD_LENGTH: The program issued a command but the command length is incorrect.")
    }     else if code == 25 {
        Some("ERROR_SEEK: The drive cannot locate a specific area or track on the disk.")
    }     else if code == 26 {
        Some("ERROR_NOT_DOS_DISK: The specified disk or diskette cannot be accessed.")
    }     else if code == 27 {
        Some("ERROR_SECTOR_NOT_FOUND: The drive cannot find the sector requested.")
    }     else if code == 28 {
        Some("ERROR_OUT_OF_PAPER: The printer is out of paper.")
    }     else if code == 29 {
        Some("ERROR_WRITE_FAULT: The system cannot write to the specified device.")
    }     else if code == 30 {
        Some("ERROR_READ_FAULT: The system cannot read from the specified device.")
    }     else if code == 31 {
        Some("ERROR_GEN_FAILURE: A device attached to the system is not functioning.")
    }     else if code == 32 {
        Some("ERROR_SHARING_VIOLATION: The process cannot access the file because it is being used by another process.")
    }     else if code == 33 {
        Some("ERROR_LOCK_VIOLATION: The process cannot access the file because another process has locked a portion of the file.")
    }     else if code == 34 {
        Some("ERROR_WRONG_DISK: The wrong diskette is in the drive. Insert %2 (Volume Serial Number: %3) into drive %1.")
    }     else if code == 36 {
        Some("ERROR_SHARING_BUFFER_EXCEEDED: Too many files opened for sharing.")
    }     else if code == 38 {
        Some("ERROR_HANDLE_EOF: Reached the end of the file.")
    }     else if code == 39 {
        Some("ERROR_HANDLE_DISK_FULL: The disk is full.")
    }     else if code == 50 {
        Some("ERROR_NOT_SUPPORTED: The request is not supported.")
    }     else if code == 51 {
        Some("ERROR_REM_NOT_LIST: Windows cannot find the network path. Verify that the network path is correct and the destination computer is not busy or turned off. If Windows still cannot find the network path, contact your network administrator.")
    }     else if code == 52 {
        Some("ERROR_DUP_NAME: You were not connected because a duplicate name exists on the network. If joining a domain, go to System in Control Panel to change the computer name and try again. If joining a workgroup, choose another workgroup name.")
    }     else if code == 53 {
        Some("ERROR_BAD_NETPATH: The network path was not found.")
    }     else if code == 54 {
        Some("ERROR_NETWORK_BUSY: The network is busy.")
    }     else if code == 55 {
        Some("ERROR_DEV_NOT_EXIST: The specified network resource or device is no longer available.")
    }     else if code == 56 {
        Some("ERROR_TOO_MANY_CMDS: The network BIOS command limit has been reached.")
    }     else if code == 57 {
        Some("ERROR_ADAP_HDW_ERR: A network adapter hardware error occurred.")
    }     else if code == 58 {
        Some("ERROR_BAD_NET_RESP: The specified server cannot perform the requested operation.")
    }     else if code == 59 {
        Some("ERROR_UNEXP_NET_ERR: An unexpected network error occurred.")
    }     else if code == 60 {
        Some("ERROR_BAD_REM_ADAP: The remote adapter is not compatible.")
    }     else if code == 61 {
        Some("ERROR_PRINTQ_FULL: The printer queue is full.")
    }     else if code == 62 {
        Some("ERROR_NO_SPOOL_SPACE: Space to store the file waiting to be printed is not available on the server.")
    }     else if code == 63 {
        Some("ERROR_PRINT_CANCELLED: Your file waiting to be printed was deleted.")
    }     else if code == 64 {
        Some("ERROR_NETNAME_DELETED: The specified network name is no longer available.")
    }     else if code == 65 {
        Some("ERROR_NETWORK_ACCESS_DENIED: Network access is denied.")
    }     else if code == 66 {
        Some("ERROR_BAD_DEV_TYPE: The network resource type is not correct.")
    }     else if code == 67 {
        Some("ERROR_BAD_NET_NAME: The network name cannot be found.")
    }     else if code == 68 {
        Some("ERROR_TOO_MANY_NAMES: The name limit for the local computer network adapter card was exceeded.")
    }     else if code == 69 {
        Some("ERROR_TOO_MANY_SESS: The network BIOS session limit was exceeded.")
    }     else if code == 70 {
        Some("ERROR_SHARING_PAUSED: The remote server has been paused or is in the process of being started.")
    }     else if code == 71 {
        Some("ERROR_REQ_NOT_ACCEP: No more connections can be made to this remote computer at this time because there are already as many connections as the computer can accept.")
    }     else if code == 72 {
        Some("ERROR_REDIR_PAUSED: The specified printer or disk device has been paused.")
    }     else if code == 80 {
        Some("ERROR_FILE_EXISTS: The file exists.")
    }     else if code == 82 {
        Some("ERROR_CANNOT_MAKE: The directory or file cannot be created.")
    }     else if code == 83 {
        Some("ERROR_FAIL_I24: Fail on INT 24.")
    }     else if code == 84 {
        Some("ERROR_OUT_OF_STRUCTURES: Storage to process this request is not available.")
    }     else if code == 85 {
        Some("ERROR_ALREADY_ASSIGNED: The local device name is already in use.")
    }     else if code == 86 {
        Some("ERROR_INVALID_PASSWORD: The specified network password is not correct.")
    }     else if code == 87 {
        Some("ERROR_INVALID_PARAMETER: The parameter is incorrect.")
    }     else if code == 88 {
        Some("ERROR_NET_WRITE_FAULT: A write fault occurred on the network.")
    }     else if code == 89 {
        Some("ERROR_NO_PROC_SLOTS: The system cannot start another process at this time.")
    }     else if code == 100 {
        Some("ERROR_TOO_MANY_SEMAPHORES: Cannot create another system semaphore.")
    } else {
        None
    }
}

/// The text for error code `code`: its name and meaning, or a note that the
/// code has no text yet.
pub fn error_text(code: u32) -> (text: String)
    ensures
        text@ == error_text_of(code),
{
    match known_error(code) {
        Some(known) => String::from_str(known),
        None => {
            let mut text = String::from_str("TODO error WIN32_ERROR(");
            push_decimal(&mut text, code as i64);
            text.append(")");
            text
        },
    }
}

} // verus!
