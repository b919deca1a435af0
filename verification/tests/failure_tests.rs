use cli_failure::{BoxedError, Failure};

#[test]
fn tests() {
    assert_eq!(Failure("a".into()).to_display_text(), "a".to_owned());
    failure().unwrap_err();
    box_dyn_error().unwrap_err();
}

#[allow(unreachable_code, unused_variables)]
fn failure() -> Result<(), Failure> {
    let result = "bad";
    return Failure("test".to_owned()).err();
    return Err(Failure("test".to_owned()));
    return cli_failure::failure_raw(format!("{result}")).err();
    return Err(cli_failure::failure_raw(format!("{result}")));
    Ok(())
}

#[allow(unreachable_code, unused_variables)]
fn box_dyn_error() -> Result<(), BoxedError> {
    let result = "bad";
    return Failure("test".to_owned()).err_boxed();
    return Err(Failure("test".to_owned()).boxed());
    return cli_failure::failure(format!("{result}"));
    return cli_failure::failure(format!("{result}"));
    return cli_failure::failure_raw(format!("{}", result)).err_boxed();
    return Err(cli_failure::failure_raw(format!("{result}")).boxed());
    Ok(())
}

#[test]
fn display_returns_message_exactly() {
    let f = Failure("no prefix, no suffix".to_owned());
    assert_eq!(f.to_display_text(), "no prefix, no suffix");
    let f = Failure(String::new());
    assert_eq!(f.to_display_text(), "");
}

#[test]
fn debug_text_quotes_plain_message() {
    assert_eq!(Failure("a".to_owned()).to_display_text(), "a");
    assert_eq!(Failure("a".to_owned()).to_debug_text(), "\"a\"");
    assert_eq!(Failure(String::new()).to_debug_text(), "\"\"");
}

#[test]
fn debug_text_escapes_special_characters() {
    let f = Failure("say \"hi\" a\\b\nc\rd\te".to_owned());
    assert_eq!(f.to_debug_text(), "\"say \\\"hi\\\" a\\\\b\\nc\\rd\\te\"");
    assert_ne!(f.to_debug_text(), f.to_display_text());
}

#[test]
fn debug_text_keeps_plain_unicode() {
    let f = Failure("héllo ✓".to_owned());
    assert_eq!(f.to_display_text(), "héllo ✓");
    assert_eq!(f.to_debug_text(), "\"héllo ✓\"");
}

#[test]
fn boxed_round_trip_preserves_message() {
    let handle = Failure("oops".to_owned()).boxed();
    assert_eq!(handle.to_display_text(), "oops");
}

#[test]
fn conversions_always_yield_failed_results() {
    let r: Result<u32, Failure> = Failure("kept".to_owned()).err();
    assert_eq!(r.unwrap_err().to_display_text(), "kept");

    let r: Result<u32, BoxedError> = Failure("kept".to_owned()).err_boxed();
    assert_eq!(r.unwrap_err().to_display_text(), "kept");
}

struct Holder(String);

impl From<BoxedError> for Holder {
    fn from(handle: BoxedError) -> Holder {
        Holder(handle.to_display_text())
    }
}

#[test]
fn err_boxed_reaches_a_custom_error_holder() {
    let r: Result<(), Holder> = Failure("carried".to_owned()).err_boxed();
    assert_eq!(r.unwrap_err().0, "carried");
}

#[test]
fn formatting_interpolation() {
    let v = "bad";
    let f = cli_failure::failure_raw(format!("something {v} happened"));
    assert_eq!(f.to_display_text(), "something bad happened");

    let r: Result<(), BoxedError> = cli_failure::failure(format!("something {v} happened"));
    assert_eq!(r.unwrap_err().to_display_text(), "something bad happened");
}

fn early_return_oops() -> Result<(), BoxedError> {
    return cli_failure::failure("oops".to_owned());
}

#[test]
fn early_return_with_boxed_error() {
    let r = early_return_oops();
    assert_eq!(r.unwrap_err().to_display_text(), "oops");
}

#[test]
fn display_reads_are_identical() {
    let f = Failure("stable".to_owned());
    let first = f.to_display_text();
    let second = f.to_display_text();
    assert_eq!(first, second);
}
