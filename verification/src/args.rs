//! The options of the command line, read with `pico_args`.
//!
//! | option           | meaning                          | default  |
//! |------------------|----------------------------------|----------|
//! | `--vid`          | vendor id                        | `0x1532` |
//! | `--pid_wire`     | product id on the cable          | `0x00c2` |
//! | `--pid_wireless` | product id behind the receiver   | `0x00c3` |
//! | `--usage`        | HID usage                        | `2`      |
//! | `--usagepage`    | HID usage page                   | `1`      |
//! | `--dpi`          | sensor resolution to set         | none     |
//! | `--hz`           | wired polling rate to set        | none     |
//! | `--whz`          | wireless polling rate to set     | none     |
//!
//! Every value is a decimal number of 16 bits and follows its option as the
//! next argument.

use crate::device::DeviceDescriptor;
use crate::number::{parse_decimal, parse_number};
use crate::run::Request;
use vstd::prelude::*;

verus! {

/// `pico_args::Arguments`, the list of arguments that options are taken out
/// of. Nothing of its inside is visible to the verifier.
#[verifier::external_type_specification]
#[verifier::external_body]
pub struct ExArguments(pico_args::Arguments);

/// The arguments that a `pico_args::Arguments` holds, in their order: the
/// text of each, or `None` for one that is not valid UTF-8.
pub uninterp spec fn remaining_arguments(arguments: pico_args::Arguments) -> Seq<Option<Seq<char>>>;

/// Why the options could not be read. The variants are those of
/// `pico_args::Error`.
#[derive(Clone, Copy, Debug, PartialEq, Eq, Structural)]
pub enum ArgsError {
    /// The value of an option is not valid UTF-8.
    NonUtf8Argument,
    /// A free-standing argument is missing.
    MissingArgument,
    /// A mandatory option is missing.
    MissingOption,
    /// An option is the last argument, so that no value follows it.
    OptionWithoutAValue,
    /// The value of an option is not a number of 16 bits.
    Utf8ArgumentParsingFailed,
    /// A value that is not text could not be read.
    ArgumentParsingFailed,
}

/// What the command line asks for.
#[derive(Clone, Copy, Debug, PartialEq, Eq)]
pub struct AppArgs {
    pub descriptor: DeviceDescriptor,
    pub request: Request,
}

/// Whether a key is a long option: it starts with two dashes.
pub open spec fn is_long_key(key: Seq<char>) -> bool {
    key.len() >= 2 && key[0] == '-' && key[1] == '-'
}

/// The value of an option among the arguments.
///
/// The option is looked for at its first occurrence as an argument of its
/// own. Where it does not occur, there is no value. Where it does, the next
/// argument is its value, whatever that looks like, and must be a number.
pub open spec fn option_value(arguments: Seq<Option<Seq<char>>>, key: Seq<char>) -> Result<
    Option<u16>,
    ArgsError,
> {
    match arguments.index_of_first(Some(key)) {
        None => Ok(None),
        Some(at) => if at + 1 >= arguments.len() {
            Err(ArgsError::OptionWithoutAValue)
        } else {
            match arguments[at + 1] {
                None => Err(ArgsError::NonUtf8Argument),
                Some(text) => match parse_decimal(text) {
                    Some(number) => Ok(Some(number)),
                    None => Err(ArgsError::Utf8ArgumentParsingFailed),
                },
            }
        },
    }
}

/// The arguments that are left once an option was looked for: an option that
/// was found with a number as its value is taken out together with the
/// value; otherwise the arguments stay as they are.
pub open spec fn without_option(arguments: Seq<Option<Seq<char>>>, key: Seq<char>) -> Seq<
    Option<Seq<char>>,
> {
    match (arguments.index_of_first(Some(key)), option_value(arguments, key)) {
        (Some(at), Ok(Some(_))) => arguments.remove(at).remove(at),
        _ => arguments,
    }
}

/// Takes the option `key` and its value out of the arguments, by
/// `pico_args::Arguments::opt_value_from_fn` with [`parse_number`] as the
/// function that reads the value.
///
/// Trusted: that the call finds the option at the first argument equal to
/// `key`, takes the argument after it for the value, and removes both only
/// where the value is a number; that it otherwise leaves the arguments as
/// they are, and which error it reports then.
#[verifier::external_body]
fn opt_number(arguments: &mut pico_args::Arguments, key: &'static str) -> (result: Result<
    Option<u16>,
    ArgsError,
>)
    requires
        is_long_key(key@),
    ensures
        result == option_value(remaining_arguments(*old(arguments)), key@),
        remaining_arguments(*final(arguments)) == without_option(
            remaining_arguments(*old(arguments)),
            key@,
        ),
{
    match arguments.opt_value_from_fn(key, parse_number) {
        Ok(value) => Ok(value),
        Err(pico_args::Error::NonUtf8Argument) => Err(ArgsError::NonUtf8Argument),
        Err(pico_args::Error::MissingArgument) => Err(ArgsError::MissingArgument),
        Err(pico_args::Error::MissingOption(_)) => Err(ArgsError::MissingOption),
        Err(pico_args::Error::OptionWithoutAValue(_)) => Err(ArgsError::OptionWithoutAValue),
        Err(pico_args::Error::Utf8ArgumentParsingFailed { .. }) => Err(
            ArgsError::Utf8ArgumentParsingFailed,
        ),
        Err(pico_args::Error::ArgumentParsingFailed { .. }) => Err(
            ArgsError::ArgumentParsingFailed,
        ),
    }
}

/// What a command line asks for.
///
/// The options are looked for in the order of the table above, each among
/// the arguments that the options before it have left. The first option
/// without a proper value gives the error; without such an option, the
/// descriptor has the given values in place of its defaults, and the request
/// holds what was given.
pub open spec fn parsed_arguments(arguments: Seq<Option<Seq<char>>>) -> Result<AppArgs, ArgsError> {
    let vendor_id = option_value(arguments, "--vid"@);
    let after_vendor_id = without_option(arguments, "--vid"@);
    let wired_product_id = option_value(after_vendor_id, "--pid_wire"@);
    let after_wired_product_id = without_option(after_vendor_id, "--pid_wire"@);
    let wireless_product_id = option_value(after_wired_product_id, "--pid_wireless"@);
    let after_wireless_product_id = without_option(after_wired_product_id, "--pid_wireless"@);
    let usage = option_value(after_wireless_product_id, "--usage"@);
    let after_usage = without_option(after_wireless_product_id, "--usage"@);
    let usage_page = option_value(after_usage, "--usagepage"@);
    let after_usage_page = without_option(after_usage, "--usagepage"@);
    let dpi = option_value(after_usage_page, "--dpi"@);
    let after_dpi = without_option(after_usage_page, "--dpi"@);
    let wired_hz = option_value(after_dpi, "--hz"@);
    let after_wired_hz = without_option(after_dpi, "--hz"@);
    let wireless_hz = option_value(after_wired_hz, "--whz"@);
    if vendor_id is Err {
        Err(vendor_id->Err_0)
    } else if wired_product_id is Err {
        Err(wired_product_id->Err_0)
    } else if wireless_product_id is Err {
        Err(wireless_product_id->Err_0)
    } else if usage is Err {
        Err(usage->Err_0)
    } else if usage_page is Err {
        Err(usage_page->Err_0)
    } else if dpi is Err {
        Err(dpi->Err_0)
    } else if wired_hz is Err {
        Err(wired_hz->Err_0)
    } else if wireless_hz is Err {
        Err(wireless_hz->Err_0)
    } else {
        Ok(
            AppArgs {
                descriptor: DeviceDescriptor::spec_with_overrides(
                    vendor_id->Ok_0,
                    wired_product_id->Ok_0,
                    wireless_product_id->Ok_0,
                    usage->Ok_0,
                    usage_page->Ok_0,
                ),
                request: Request {
                    dpi: dpi->Ok_0,
                    wired_hz: wired_hz->Ok_0,
                    wireless_hz: wireless_hz->Ok_0,
                },
            },
        )
    }
}

/// Reads the options of a command line.
///
/// An option that is absent leaves the descriptor's default, or the setting
/// of the device, as it is. Arguments that belong to no option are ignored.
pub fn parse_args(arguments: pico_args::Arguments) -> (result: Result<AppArgs, ArgsError>)
    ensures
        result == parsed_arguments(remaining_arguments(arguments)),
{
    proof {
        reveal_strlit("--vid");
        reveal_strlit("--pid_wire");
        reveal_strlit("--pid_wireless");
        reveal_strlit("--usage");
        reveal_strlit("--usagepage");
        reveal_strlit("--dpi");
        reveal_strlit("--hz");
        reveal_strlit("--whz");
    }
    let mut rest = arguments;
    let vendor_id = match opt_number(&mut rest, "--vid") {
        Ok(value) => value,
        Err(error) => return Err(error),
    };
    let wired_product_id = match opt_number(&mut rest, "--pid_wire") {
        Ok(value) => value,
        Err(error) => return Err(error),
    };
    let wireless_product_id = match opt_number(&mut rest, "--pid_wireless") {
        Ok(value) => value,
        Err(error) => return Err(error),
    };
    let usage = match opt_number(&mut rest, "--usage") {
        Ok(value) => value,
        Err(error) => return Err(error),
    };
    let usage_page = match opt_number(&mut rest, "--usagepage") {
        Ok(value) => value,
        Err(error) => return Err(error),
    };
    let dpi = match opt_number(&mut rest, "--dpi") {
        Ok(value) => value,
        Err(error) => return Err(error),
    };
    let wired_hz = match opt_number(&mut rest, "--hz") {
        Ok(value) => value,
        Err(error) => return Err(error),
    };
    let wireless_hz = match opt_number(&mut rest, "--whz") {
        Ok(value) => value,
        Err(error) => return Err(error),
    };
    Ok(
        AppArgs {
            descriptor: DeviceDescriptor::with_overrides(
                vendor_id,
                wired_product_id,
                wireless_product_id,
                usage,
                usage_page,
            ),
            request: Request { dpi, wired_hz, wireless_hz },
        },
    )
}

} // verus!
