//! Launch-plan assembly: exact token sequences and command-line rendering.

use dprun::address::DPAddressValue;
use dprun::guid::Guid;
use dprun::options::DPRunOptions;
use dprun::plan::assemble;
use uuid::Uuid;

fn guid_from(s: &str) -> Guid {
    Guid::from_bytes(*Uuid::parse_str(s).unwrap().as_bytes())
}

#[test]
fn build_command_line_args() {
    let dpchat = guid_from("5BFDB060-06A4-11d0-9C4F-00A0C905425E");
    let tcpip = guid_from("36E95EE0-8577-11cf-960c-0080c7534e82");
    let inet_port = guid_from("E4524541-8EA5-11d1-8A96-006097B01411");

    let options = DPRunOptions::<()>::builder()
        .host(None)
        .player_name("Test".into())
        .application(dpchat)
        .service_provider(tcpip)
        .named_address_part("INet", DPAddressValue::String("127.0.0.1".into()))
        .address_part(inet_port, DPAddressValue::Number(2197))
        .finish()
        .unwrap();

    let plan = assemble(&options);
    // On a host that runs the tool natively ("windows"), no shim prefix.
    assert_eq!(
        plan.command(false),
        "\"dprun.exe\" \"--host\" \"--player\" \"Test\" \"--service-provider\" \"{36E95EE0-8577-11CF-960C-0080C7534E82}\" \"--application\" \"{5BFDB060-06A4-11D0-9C4F-00A0C905425E}\" \"--address\" \"INet=127.0.0.1\" \"--address\" \"{E4524541-8EA5-11D1-8A96-006097B01411}=i:2197\""
    );
    assert_eq!(
        plan.command(true),
        "\"wine\" \"dprun.exe\" \"--host\" \"--player\" \"Test\" \"--service-provider\" \"{36E95EE0-8577-11CF-960C-0080C7534E82}\" \"--application\" \"{5BFDB060-06A4-11D0-9C4F-00A0C905425E}\" \"--address\" \"INet=127.0.0.1\" \"--address\" \"{E4524541-8EA5-11D1-8A96-006097B01411}=i:2197\""
    );
}

#[test]
fn reference_case_token_sequence() {
    let dpchat = guid_from("5BFDB060-06A4-11d0-9C4F-00A0C905425E");
    let tcpip = guid_from("36E95EE0-8577-11cf-960c-0080c7534e82");
    let inet_port = guid_from("E4524541-8EA5-11d1-8A96-006097B01411");

    let options = DPRunOptions::<()>::builder()
        .host(None)
        .player_name("Test".into())
        .application(dpchat)
        .service_provider(tcpip)
        .named_address_part("INet", DPAddressValue::String("127.0.0.1".into()))
        .address_part(inet_port, DPAddressValue::Number(2197))
        .finish()
        .unwrap();

    let plan = assemble(&options);
    let expected: Vec<String> = vec![
        "--host".into(),
        "--player".into(),
        "Test".into(),
        "--service-provider".into(),
        "{36E95EE0-8577-11CF-960C-0080C7534E82}".into(),
        "--application".into(),
        "{5BFDB060-06A4-11D0-9C4F-00A0C905425E}".into(),
        "--address".into(),
        "INet=127.0.0.1".into(),
        "--address".into(),
        "{E4524541-8EA5-11D1-8A96-006097B01411}=i:2197".into(),
    ];
    assert_eq!(plan.tokens, expected);
    assert_eq!(plan.cwd, None);
}

#[test]
fn group_order_with_all_optional_fields() {
    let session = guid_from("00112233-4455-6677-8899-AABBCCDDEEFF");
    let provider = guid_from("36E95EE0-8577-11cf-960c-0080c7534e82");
    let app = guid_from("5BFDB060-06A4-11d0-9C4F-00A0C905425E");
    let key = guid_from("E4524541-8EA5-11d1-8A96-006097B01411");

    let options = DPRunOptions::<()>::builder()
        .join(session)
        .player_name("Player".into())
        .service_provider(provider)
        .application(app)
        .named_address_part("INet", DPAddressValue::String("10.0.0.1".into()))
        .address_part(key, DPAddressValue::Number(-5))
        .named_address_part("Data", DPAddressValue::Binary(vec![0x0a, 0xff]))
        .session_name("My Session".into())
        .session_password("hunter".into())
        .cwd("/tmp/work".into())
        .finish()
        .unwrap();

    let plan = assemble(&options);
    let expected: Vec<String> = vec![
        "--join".into(),
        "{00112233-4455-6677-8899-AABBCCDDEEFF}".into(),
        "--player".into(),
        "Player".into(),
        "--service-provider".into(),
        "{36E95EE0-8577-11CF-960C-0080C7534E82}".into(),
        "--application".into(),
        "{5BFDB060-06A4-11D0-9C4F-00A0C905425E}".into(),
        "--address".into(),
        "INet=10.0.0.1".into(),
        "--address".into(),
        "{E4524541-8EA5-11D1-8A96-006097B01411}=i:-5".into(),
        "--address".into(),
        "Data=b:0aff".into(),
        "--session-name".into(),
        "My Session".into(),
        "--session-password".into(),
        "hunter".into(),
    ];
    assert_eq!(plan.tokens, expected);
    assert_eq!(plan.cwd, Some("/tmp/work".to_string()));
}

#[test]
fn assemble_is_deterministic() {
    let provider = guid_from("36E95EE0-8577-11cf-960c-0080c7534e82");
    let app = guid_from("5BFDB060-06A4-11d0-9C4F-00A0C905425E");

    let options = DPRunOptions::<()>::builder()
        .host(Some(guid_from("00112233-4455-6677-8899-AABBCCDDEEFF")))
        .player_name("Twice".into())
        .service_provider(provider)
        .application(app)
        .named_address_part("INet", DPAddressValue::String("127.0.0.1".into()))
        .finish()
        .unwrap();

    let first = assemble(&options);
    let second = assemble(&options);
    assert_eq!(first.tokens, second.tokens);
    assert_eq!(first.cwd, second.cwd);
}

#[test]
fn host_without_session_id_takes_no_value() {
    let provider = guid_from("36E95EE0-8577-11cf-960c-0080c7534e82");
    let app = guid_from("5BFDB060-06A4-11d0-9C4F-00A0C905425E");

    let options = DPRunOptions::<()>::builder()
        .host(None)
        .player_name("P".into())
        .service_provider(provider)
        .application(app)
        .finish()
        .unwrap();
    let plan = assemble(&options);
    assert_eq!(plan.tokens[0], "--host");
    assert_eq!(plan.tokens[1], "--player");

    let options = DPRunOptions::<()>::builder()
        .host(Some(guid_from("00112233-4455-6677-8899-AABBCCDDEEFF")))
        .player_name("P".into())
        .service_provider(provider)
        .application(app)
        .finish()
        .unwrap();
    let plan = assemble(&options);
    assert_eq!(plan.tokens[0], "--host");
    assert_eq!(plan.tokens[1], "{00112233-4455-6677-8899-AABBCCDDEEFF}");
}
