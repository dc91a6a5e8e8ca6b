//! How much of a workspace configuration is read, and which configurations are refused unread.

use vstd::prelude::*;

verus! {

/// Why a configuration is not admitted.
#[derive(Clone, Debug, PartialEq, Eq)]
pub enum ConfigErrorV1 {
    /// The configuration is longer than any configuration may be.
    InputTooLarge { maximum: usize, actual: usize },
    /// The configuration does not say what a configuration has to say.
    Invalid { message: String },
}

/// Why a configuration file is not read.
#[derive(Debug, PartialEq, Eq)]
pub enum ConfigRefusalV1 {
    /// The file is not a regular file.
    NotRegular,
    /// The configuration is not admitted.
    Admission(ConfigErrorV1),
}

/// Refuses a configuration file that is no regular file, or that is too long. Returns the number of
/// bytes to make room for.
pub fn check_config_file(is_regular: bool, length: u64, maximum: usize) -> (capacity: Result<
    usize,
    ConfigRefusalV1,
>)
    ensures
        capacity == if !is_regular {
            Err(ConfigRefusalV1::NotRegular)
        } else if length > maximum {
            Err(
                ConfigRefusalV1::Admission(
                    ConfigErrorV1::InputTooLarge { maximum, actual: length as usize },
                ),
            )
        } else {
            Ok(length as usize)
        },
        capacity matches Ok(capacity) ==> capacity == length,
{
    if !is_regular {
        return Err(ConfigRefusalV1::NotRegular);
    }
    if length > maximum as u64 {
        return Err(
            ConfigRefusalV1::Admission(
                ConfigErrorV1::InputTooLarge {
                    maximum,
                    actual: #[verifier::truncate] (length as usize),
                },
            ),
        );
    }
    Ok(length as usize)
}

/// How many bytes of a configuration are read at most: one more than it may have, so that a longer
/// one is noticed, however long it is.
pub fn config_read_limit(maximum: usize) -> (limit: u64)
    requires
        maximum < u64::MAX,
    ensures
        limit == maximum + 1,
{
    maximum as u64 + 1
}

/// Refuses the bytes of a configuration that is too long.
pub fn admit_workspace_config_bytes(bytes: Vec<u8>, maximum: usize) -> (admitted: Result<
    Vec<u8>,
    ConfigErrorV1,
>)
    ensures
        admitted == if bytes@.len() > maximum {
            Err(ConfigErrorV1::InputTooLarge { maximum, actual: bytes@.len() as usize })
        } else {
            Ok(bytes)
        },
{
    if bytes.len() > maximum {
        return Err(ConfigErrorV1::InputTooLarge { maximum, actual: bytes.len() });
    }
    Ok(bytes)
}

/// A configuration file that grew after its length was taken is refused all the same: of a file that
/// is longer than a configuration may be, one byte more than that is read, and so many bytes are not
/// admitted.
pub proof fn a_growing_configuration_is_refused(file: Seq<u8>, read: Seq<u8>, maximum: usize)
    requires
        maximum < u64::MAX,
        file.len() > maximum,
        read == file.take(maximum + 1),
    ensures
        read.len() > maximum,
        read.len() == maximum + 1,
{
}

} // verus!
