//! The decisions of the enclave's command channel to its host: a command
//! goes out serialized through an ocall, and the host's status codes and
//! reply decide what the enclave gets back.

use vstd::prelude::*;

verus! {

/// The SGX status code of success.
pub const SGX_SUCCESS: u32 = 0;

/// The capacity of the buffer that the host writes a command's result into.
pub const OUTPUT_MAXLEN: usize = 65536;

/// The errors of the command channel.
pub enum HostApiError {
    /// bincode failed to serialize the command or to deserialize the reply.
    Bincode(String),
    /// The ocall itself failed, with this SGX status.
    SgxError { status: u32 },
    /// The host ran the command and answered with an error.
    Command { status: u32, descr: String },
}

/// How many bytes of the output buffer hold the reply, after the ocall
/// returned `result` and reported `output_len` bytes written: an error
/// unless the ocall succeeded. A successful ocall that reports
/// `OUTPUT_MAXLEN` bytes or more is left out: the channel asserts that the
/// host wrote less than the buffer holds.
pub fn ocall_output_len(result: u32, output_len: u32) -> (r: Result<usize, HostApiError>)
    requires
        result == SGX_SUCCESS ==> output_len < OUTPUT_MAXLEN,
    ensures
        result != SGX_SUCCESS ==> r == Err::<usize, HostApiError>(
            HostApiError::SgxError { status: result },
        ),
        result == SGX_SUCCESS ==> r == Ok::<usize, HostApiError>(output_len as usize),
{
    if result != SGX_SUCCESS {
        Err(HostApiError::SgxError { status: result })
    } else {
        Ok(output_len as usize)
    }
}

/// What the enclave gets for the host's deserialized reply `res`, given the
/// status `ret` that the host set and, where the reply reports a failed
/// command, its description: the reply itself on success, else the command's
/// error. A failed status with a reply that reports no failed command is
/// left out: the host sets a failed status only together with a failed
/// command's reply.
pub fn command_outcome<R>(ret: u32, res: R, command_error: Option<String>) -> (r: Result<
    R,
    HostApiError,
>)
    requires
        ret == SGX_SUCCESS || command_error is Some,
    ensures
        ret == SGX_SUCCESS ==> r == Ok::<R, HostApiError>(res),
        ret != SGX_SUCCESS ==> r == Err::<R, HostApiError>(
            HostApiError::Command { status: ret, descr: command_error->Some_0 },
        ),
{
    if ret == SGX_SUCCESS {
        Ok(res)
    } else {
        match command_error {
            Some(descr) => Err(HostApiError::Command { status: ret, descr }),
            None => {
                proof {
                    assert(false);
                }
                Err(HostApiError::SgxError { status: ret })
            },
        }
    }
}

} // verus!
