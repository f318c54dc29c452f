use deskled::dal::{get_rgb, get_state, set_rgb, set_state};
use deskled::data::Config;
use deskled::device::Rgb;
use deskled::error::Error;
use deskled::fulfillment::{
    apply_command, device_status, execute, fulfillment, has_light, needs_transaction, query, sync,
    BasicInput,
    BasicRequest, Command, CommandParams, CommandResponse, CommandType, Decoded, DeviceColor,
    DeviceStatus, ExecuteInput, ExecuteRequest, ExecuteResponse, ExecuteTarget, Intent,
    QueryDevice, QueryInput, QueryRequest, QueryResponse, Reply, TargettedExecution,
};
use deskled::store::{Statement, Store, Transaction};

fn fresh() -> Transaction {
    Transaction::begin(Store::new())
}

fn holding(color: Option<Rgb>, on: Option<bool>) -> Transaction {
    let mut store = Store::new();
    store.color = color;
    store.off = on.map(|on| !on);
    Transaction::begin(store)
}

fn no_params() -> CommandParams {
    CommandParams { brightness: None, color: None, on: None }
}

fn switch(on: bool) -> Command {
    Command { command: CommandType::OnOff, params: CommandParams { on: Some(on), ..no_params() } }
}

fn paint(spectrum_rgb: i32) -> Command {
    Command {
        command: CommandType::ColorAbsolute,
        params: CommandParams { color: Some(DeviceColor { spectrum_rgb }), ..no_params() },
    }
}

fn dim(brightness: u8) -> Command {
    Command {
        command: CommandType::BrightnessAbsolute,
        params: CommandParams { brightness: Some(brightness), ..no_params() },
    }
}

fn group(ids: &[&str], execution: Vec<Command>) -> TargettedExecution {
    TargettedExecution {
        devices: ids.iter().map(|id| ExecuteTarget { id: id.to_string() }).collect(),
        execution,
    }
}

fn request(commands: Vec<TargettedExecution>) -> ExecuteRequest {
    ExecuteRequest { request_id: "req-1".to_string(), inputs: vec![ExecuteInput { commands }] }
}

fn nothing() -> ExecuteResponse {
    ExecuteResponse { request_id: "req-1".to_string(), commands: vec![] }
}

fn success(states: DeviceStatus) -> CommandResponse {
    CommandResponse { ids: vec!["0".to_string()], status: "SUCCESS".to_string(), states }
}

fn config() -> Config {
    Config {
        oauth2_client_id: "client".to_string(),
        oauth2_client_secret: "secret".to_string(),
        login_username: "user".to_string(),
        login_password: "password".to_string(),
        led_length: 30,
        mysql_host: "localhost".to_string(),
        mysql_password: "pw".to_string(),
        mysql_username: "deskled".to_string(),
        mysql_database: "deskled".to_string(),
    }
}

const WHITE: Rgb = Rgb { r: 255, g: 255, b: 255 };
const BLACK: Rgb = Rgb { r: 0, g: 0, b: 0 };
const PURPLE: Rgb = Rgb { r: 255, g: 0, b: 255 };

#[test]
fn switching_on_an_empty_store_shows_white() {
    let mut tx = fresh();
    let mut driver = Vec::new();
    let r = execute(&mut tx, &mut driver, &request(vec![group(&["0"], vec![switch(true)])]));
    let states = DeviceStatus {
        on: true,
        online: true,
        brightness: 100,
        color: DeviceColor { spectrum_rgb: 16777215 },
    };
    assert_eq!(
        Ok(ExecuteResponse { request_id: "req-1".to_string(), commands: vec![success(states)] }),
        r
    );
    assert_eq!(vec![WHITE], driver);
    assert_eq!(Some(WHITE), get_rgb(&tx));
    assert_eq!(Some(true), get_state(&tx));
    assert!(tx.committed);
    assert_eq!(
        vec![Statement::InsertState { off: false }, Statement::InsertColor { rgb: WHITE }],
        tx.statements
    );
}

#[test]
fn switching_on_with_black_stored_shows_white_and_never_black() {
    let mut tx = holding(Some(BLACK), Some(false));
    let mut driver = Vec::new();
    let r = execute(&mut tx, &mut driver, &request(vec![group(&["0"], vec![switch(true)])]));
    assert_eq!(vec![WHITE], driver);
    assert_eq!(Some(WHITE), get_rgb(&tx));
    let response = r.unwrap();
    assert_eq!(16777215, response.commands[0].states.color.spectrum_rgb);
    assert!(response.commands[0].states.on);
    assert_eq!(
        vec![Statement::UpdateState { off: false }, Statement::UpdateColor { rgb: WHITE }],
        tx.statements
    );
}

#[test]
fn switching_on_shows_the_stored_color() {
    let mut tx = holding(Some(PURPLE), Some(false));
    let mut driver = Vec::new();
    let r = execute(&mut tx, &mut driver, &request(vec![group(&["0"], vec![switch(true)])]));
    assert_eq!(vec![PURPLE], driver);
    assert_eq!(16711935, r.unwrap().commands[0].states.color.spectrum_rgb);
}

#[test]
fn switching_off_shows_black_and_keeps_the_stored_color() {
    let mut tx = holding(Some(PURPLE), Some(true));
    let mut driver = Vec::new();
    let r = execute(&mut tx, &mut driver, &request(vec![group(&["0"], vec![switch(false)])]));
    assert_eq!(vec![BLACK], driver);
    assert_eq!(Some(PURPLE), get_rgb(&tx));
    assert_eq!(Some(false), get_state(&tx));
    assert_eq!(vec![Statement::UpdateState { off: true }], tx.statements);
    let states = DeviceStatus {
        on: false,
        online: true,
        brightness: 0,
        color: DeviceColor { spectrum_rgb: 16711935 },
    };
    assert_eq!(vec![success(states)], r.unwrap().commands);
}

#[test]
fn switching_off_and_on_restores_the_color() {
    let c = Rgb { r: 10, g: 200, b: 30 };
    let mut tx = holding(Some(c), Some(true));
    let mut driver = Vec::new();
    let r = execute(
        &mut tx,
        &mut driver,
        &request(vec![group(&["0"], vec![switch(false), switch(true)])]),
    );
    assert_eq!(vec![BLACK, c], driver);
    assert_eq!(Some(c), get_rgb(&tx));
    assert_eq!(Some(true), get_state(&tx));
    let states = DeviceStatus {
        on: true,
        online: true,
        brightness: 78,
        color: DeviceColor { spectrum_rgb: 706590 },
    };
    assert_eq!(vec![success(states)], r.unwrap().commands);
}

#[test]
fn switching_off_and_on_in_two_requests_restores_the_color() {
    let c = Rgb { r: 1, g: 2, b: 3 };
    let mut store = Store::new();
    store.color = Some(c);
    store.off = Some(false);
    let mut queue = Vec::new();

    let mut tx = Transaction::begin(store.clone());
    execute(&mut tx, &mut queue, &request(vec![group(&["0"], vec![switch(false)])])).unwrap();
    let store = tx.end(store);
    assert_eq!(Some(c), store.color);
    assert_eq!(Some(true), store.off);

    let mut tx = Transaction::begin(store.clone());
    execute(&mut tx, &mut queue, &request(vec![group(&["0"], vec![switch(true)])])).unwrap();
    let store = tx.end(store);
    assert_eq!(Some(c), store.color);
    assert_eq!(Some(false), store.off);
    assert_eq!(vec![BLACK, c], queue);
}

#[test]
fn a_color_set_while_off_is_stored_and_not_shown() {
    let mut tx = holding(Some(WHITE), Some(false));
    let mut driver = Vec::new();
    let r = execute(&mut tx, &mut driver, &request(vec![group(&["0"], vec![paint(16711935)])]));
    assert!(driver.is_empty());
    assert_eq!(Some(PURPLE), get_rgb(&tx));
    assert_eq!(Some(false), get_state(&tx));
    let states = DeviceStatus {
        on: false,
        online: true,
        brightness: 0,
        color: DeviceColor { spectrum_rgb: 16711935 },
    };
    assert_eq!(vec![success(states)], r.unwrap().commands);
}

#[test]
fn a_color_set_while_nothing_is_stored_is_not_shown() {
    let mut tx = fresh();
    let mut driver = Vec::new();
    execute(&mut tx, &mut driver, &request(vec![group(&["0"], vec![paint(255)])])).unwrap();
    assert!(driver.is_empty());
    assert_eq!(Some(Rgb { r: 0, g: 0, b: 255 }), get_rgb(&tx));
    assert_eq!(None, get_state(&tx));
    assert_eq!(vec![Statement::InsertColor { rgb: Rgb { r: 0, g: 0, b: 255 } }], tx.statements);
}

#[test]
fn a_color_set_while_on_is_stored_and_shown() {
    let mut tx = holding(Some(WHITE), Some(true));
    let mut driver = Vec::new();
    let r = execute(&mut tx, &mut driver, &request(vec![group(&["0"], vec![paint(16711935)])]));
    assert_eq!(vec![PURPLE], driver);
    assert_eq!(Some(PURPLE), get_rgb(&tx));
    let states = DeviceStatus {
        on: true,
        online: true,
        brightness: 100,
        color: DeviceColor { spectrum_rgb: 16711935 },
    };
    assert_eq!(vec![success(states)], r.unwrap().commands);
}

#[test]
fn a_brightness_dims_the_stored_color_and_switches_on() {
    let mut tx = holding(Some(PURPLE), Some(false));
    let mut driver = Vec::new();
    let r = execute(&mut tx, &mut driver, &request(vec![group(&["0"], vec![dim(50)])]));
    let half = Rgb { r: 127, g: 0, b: 127 };
    assert_eq!(vec![half], driver);
    assert_eq!(Some(half), get_rgb(&tx));
    assert_eq!(Some(true), get_state(&tx));
    assert_eq!(
        vec![Statement::UpdateColor { rgb: half }, Statement::UpdateState { off: false }],
        tx.statements
    );
    let states = DeviceStatus {
        on: true,
        online: true,
        brightness: 49,
        color: DeviceColor { spectrum_rgb: 8323199 },
    };
    assert_eq!(vec![success(states)], r.unwrap().commands);
}

#[test]
fn a_brightness_of_zero_switches_off_and_stores_black() {
    let mut tx = holding(Some(PURPLE), Some(true));
    let mut driver = Vec::new();
    let r = execute(&mut tx, &mut driver, &request(vec![group(&["0"], vec![dim(0)])]));
    assert_eq!(vec![BLACK], driver);
    assert_eq!(Some(BLACK), get_rgb(&tx));
    assert_eq!(Some(false), get_state(&tx));
    let states =
        DeviceStatus { on: false, online: true, brightness: 0, color: DeviceColor { spectrum_rgb: 0 } };
    assert_eq!(vec![success(states)], r.unwrap().commands);
}

#[test]
fn a_brightness_on_an_empty_store_gives_grey() {
    let mut tx = fresh();
    let mut driver = Vec::new();
    execute(&mut tx, &mut driver, &request(vec![group(&["0"], vec![dim(50)])])).unwrap();
    let grey = Rgb { r: 127, g: 127, b: 127 };
    assert_eq!(vec![grey], driver);
    assert_eq!(Some(grey), get_rgb(&tx));
    assert_eq!(
        vec![Statement::InsertColor { rgb: grey }, Statement::InsertState { off: false }],
        tx.statements
    );
}

#[test]
fn a_command_without_its_parameter_is_a_bad_request() {
    for command in [CommandType::BrightnessAbsolute, CommandType::ColorAbsolute, CommandType::OnOff]
    {
        let mut tx = holding(Some(PURPLE), Some(true));
        let before = tx.clone();
        let mut driver = Vec::new();
        let bare = Command { command, params: no_params() };
        let r = execute(&mut tx, &mut driver, &request(vec![group(&["0"], vec![bare])]));
        assert_eq!(Err(Error::BadRequest), r);
        assert_eq!(before, tx);
        assert!(driver.is_empty());
    }
}

#[test]
fn a_parameter_of_another_kind_does_not_count() {
    let mut tx = fresh();
    let mut driver = Vec::new();
    let wrong = Command {
        command: CommandType::OnOff,
        params: CommandParams {
            brightness: Some(10),
            color: Some(DeviceColor { spectrum_rgb: 5 }),
            on: None,
        },
    };
    assert_eq!(Err(Error::BadRequest), apply_command(&mut tx, &mut driver, &wrong));
    assert!(tx.statements.is_empty());
    assert!(driver.is_empty());
}

#[test]
fn a_bad_command_stops_the_request_without_a_commit() {
    let mut tx = holding(Some(PURPLE), Some(true));
    let mut driver = Vec::new();
    let bare = Command { command: CommandType::OnOff, params: no_params() };
    let r = execute(
        &mut tx,
        &mut driver,
        &request(vec![group(&["0"], vec![switch(false), bare, switch(true)])]),
    );
    assert_eq!(Err(Error::BadRequest), r);
    assert!(!tx.committed);
    assert_eq!(vec![BLACK], driver);
    assert_eq!(vec![Statement::UpdateState { off: true }], tx.statements);
    let mut before = Store::new();
    before.color = Some(PURPLE);
    before.off = Some(false);
    assert_eq!(before.clone(), tx.end(before));
}

#[test]
fn a_request_for_another_device_does_nothing() {
    let mut tx = holding(Some(PURPLE), Some(true));
    let before = tx.clone();
    let mut driver = Vec::new();
    let r = execute(
        &mut tx,
        &mut driver,
        &request(vec![group(&["1", "light"], vec![switch(false), paint(5)])]),
    );
    assert_eq!(Ok(nothing()), r);
    assert_eq!(before, tx);
    assert!(tx.statements.is_empty());
    assert!(!tx.committed);
    assert!(driver.is_empty());
}

#[test]
fn a_request_without_devices_does_nothing() {
    let mut tx = fresh();
    let mut driver = Vec::new();
    let r = execute(&mut tx, &mut driver, &request(vec![group(&[], vec![switch(true)])]));
    assert_eq!(Ok(nothing()), r);
    assert!(tx.statements.is_empty());
    assert!(!tx.committed);
    assert!(driver.is_empty());
}

#[test]
fn a_later_group_for_another_device_discards_the_whole_request() {
    let mut store = Store::new();
    store.color = Some(PURPLE);
    store.off = Some(false);
    let mut tx = Transaction::begin(store.clone());
    let mut driver = Vec::new();
    let r = execute(
        &mut tx,
        &mut driver,
        &request(vec![group(&["0"], vec![switch(false)]), group(&["7"], vec![switch(true)])]),
    );
    assert_eq!(Ok(nothing()), r);
    assert!(!tx.committed);
    assert_eq!(vec![BLACK], driver);
    assert_eq!(store.clone(), tx.end(store));
}

#[test]
fn the_light_may_stand_anywhere_among_the_devices() {
    let mut tx = fresh();
    let mut driver = Vec::new();
    let r = execute(
        &mut tx,
        &mut driver,
        &request(vec![group(&["3", "0", "9"], vec![switch(true)])]),
    );
    assert_eq!(1, r.unwrap().commands.len());
    assert!(tx.committed);
}

#[test]
fn has_light_looks_for_the_exact_id() {
    let targets = |ids: &[&str]| -> Vec<ExecuteTarget> {
        ids.iter().map(|id| ExecuteTarget { id: id.to_string() }).collect()
    };
    assert!(has_light(&targets(&["0"])));
    assert!(has_light(&targets(&["a", "0"])));
    assert!(!has_light(&targets(&[])));
    assert!(!has_light(&targets(&["00", " 0", "O", ""])));
}

#[test]
fn every_group_gets_the_final_state() {
    let mut tx = fresh();
    let mut driver = Vec::new();
    let r = execute(
        &mut tx,
        &mut driver,
        &request(vec![
            group(&["0"], vec![switch(true)]),
            group(&["0"], vec![paint(16711935), dim(50)]),
            group(&["0"], vec![]),
        ]),
    );
    let states = DeviceStatus {
        on: true,
        online: true,
        brightness: 49,
        color: DeviceColor { spectrum_rgb: 8323199 },
    };
    assert_eq!(vec![success(states), success(states), success(states)], r.unwrap().commands);
    assert_eq!(vec![WHITE, PURPLE, Rgb { r: 127, g: 0, b: 127 }], driver);
    assert!(tx.committed);
}

#[test]
fn the_queue_keeps_what_it_held() {
    let mut tx = holding(Some(PURPLE), Some(true));
    let mut driver = vec![Rgb { r: 9, g: 9, b: 9 }];
    execute(&mut tx, &mut driver, &request(vec![group(&["0"], vec![switch(false), switch(true)])]))
        .unwrap();
    assert_eq!(vec![Rgb { r: 9, g: 9, b: 9 }, BLACK, PURPLE], driver);
}

#[test]
fn a_request_without_commands_commits_and_answers_nothing() {
    let mut tx = fresh();
    let mut driver = Vec::new();
    let r = execute(&mut tx, &mut driver, &request(vec![]));
    assert_eq!(Ok(nothing()), r);
    assert!(tx.committed);
    assert!(driver.is_empty());
}

#[test]
fn an_execute_request_without_inputs_answers_nothing() {
    let mut tx = fresh();
    let mut driver = Vec::new();
    let r = execute(
        &mut tx,
        &mut driver,
        &ExecuteRequest { request_id: "req-1".to_string(), inputs: vec![] },
    );
    assert_eq!(Ok(nothing()), r);
    assert!(!tx.committed);
}

#[test]
fn only_the_first_input_is_executed() {
    let mut tx = fresh();
    let mut driver = Vec::new();
    let r = execute(
        &mut tx,
        &mut driver,
        &ExecuteRequest {
            request_id: "req-1".to_string(),
            inputs: vec![
                ExecuteInput { commands: vec![group(&["0"], vec![switch(true)])] },
                ExecuteInput { commands: vec![group(&["0"], vec![switch(false)])] },
            ],
        },
    );
    assert_eq!(1, r.unwrap().commands.len());
    assert_eq!(vec![WHITE], driver);
}

#[test]
fn status_of_an_empty_store_is_off_and_black() {
    let tx = fresh();
    assert_eq!(
        DeviceStatus { on: false, online: true, brightness: 0, color: DeviceColor { spectrum_rgb: 0 } },
        device_status(&tx)
    );
}

#[test]
fn status_reports_the_brightness_only_while_on() {
    let mut tx = fresh();
    set_rgb(&mut tx, Rgb { r: 128, g: 64, b: 32 });
    set_state(&mut tx, true);
    assert_eq!(
        DeviceStatus {
            on: true,
            online: true,
            brightness: 50,
            color: DeviceColor { spectrum_rgb: 8405024 }
        },
        device_status(&tx)
    );
    set_state(&mut tx, false);
    assert_eq!(
        DeviceStatus {
            on: false,
            online: true,
            brightness: 0,
            color: DeviceColor { spectrum_rgb: 8405024 }
        },
        device_status(&tx)
    );
}

fn asking(ids: &[&str]) -> QueryRequest {
    QueryRequest {
        request_id: "q-1".to_string(),
        inputs: vec![QueryInput {
            devices: ids.iter().map(|id| QueryDevice { id: id.to_string() }).collect(),
        }],
    }
}

#[test]
fn query_reports_the_state_of_the_light() {
    let mut tx = holding(Some(PURPLE), Some(true));
    let r = query(&mut tx, &asking(&["0"]));
    let states = DeviceStatus {
        on: true,
        online: true,
        brightness: 100,
        color: DeviceColor { spectrum_rgb: 16711935 },
    };
    assert_eq!(Ok(QueryResponse { request_id: "q-1".to_string(), devices: vec![states] }), r);
    assert!(tx.committed);
    assert!(tx.statements.is_empty());
}

#[test]
fn query_of_a_light_that_is_off_reports_no_brightness() {
    let mut tx = holding(Some(PURPLE), Some(false));
    let r = query(&mut tx, &asking(&["0", "1"]));
    let states = DeviceStatus {
        on: false,
        online: true,
        brightness: 0,
        color: DeviceColor { spectrum_rgb: 16711935 },
    };
    assert_eq!(vec![states], r.unwrap().devices);
}

#[test]
fn query_for_another_device_first_reports_nothing() {
    for ids in [&["1", "0"][..], &[][..], &["00"][..]] {
        let mut tx = holding(Some(PURPLE), Some(true));
        let r = query(&mut tx, &asking(ids));
        assert_eq!(Ok(QueryResponse { request_id: "q-1".to_string(), devices: vec![] }), r);
        assert!(!tx.committed);
    }
}

#[test]
fn query_without_inputs_is_a_bad_request() {
    let mut tx = fresh();
    let r = query(&mut tx, &QueryRequest { request_id: "q-1".to_string(), inputs: vec![] });
    assert_eq!(Err(Error::BadRequest), r);
    assert!(!tx.committed);
}

#[test]
fn sync_describes_the_one_light() {
    let response = sync(&config(), "1.2.3", "s-1".to_string());
    assert_eq!("s-1", response.request_id);
    assert_eq!("user", response.agent_user_id);
    assert_eq!(1, response.devices.len());
    let device = &response.devices[0];
    assert_eq!("0", device.id);
    assert_eq!("action.devices.types.LIGHT", device.device_type);
    assert_eq!(
        vec![
            "action.devices.traits.OnOff".to_string(),
            "action.devices.traits.ColorSetting".to_string(),
            "action.devices.traits.Brightness".to_string(),
        ],
        device.traits
    );
    assert_eq!("DeskLed", device.name);
    assert_eq!("Array21 Development", device.manufacturer);
    assert_eq!("PiZero", device.model);
    assert_eq!("0.1.0", device.hw_version);
    assert_eq!("1.2.3", device.sw_version);
    assert_eq!("rgb", device.color_model);
}

fn body(intents: &[Intent]) -> Decoded {
    Decoded {
        basic: Ok(BasicRequest {
            request_id: "req-1".to_string(),
            inputs: intents.iter().map(|intent| BasicInput { intent: *intent }).collect(),
        }),
        query: Ok(QueryRequest {
            request_id: "req-1".to_string(),
            inputs: vec![QueryInput { devices: vec![QueryDevice { id: "0".to_string() }] }],
        }),
        execute: Ok(request(vec![group(&["0"], vec![switch(true)])])),
    }
}

#[test]
fn fulfillment_of_sync_answers_the_description() {
    let mut tx = fresh();
    let mut driver = Vec::new();
    let r = fulfillment(&config(), &mut tx, &mut driver, "9.9.9", &body(&[Intent::Sync]));
    assert_eq!(Ok(Reply::Sync(sync(&config(), "9.9.9", "req-1".to_string()))), r);
    assert_eq!(fresh(), tx);
    assert!(driver.is_empty());
}

#[test]
fn fulfillment_of_query_answers_the_state() {
    let mut tx = holding(Some(PURPLE), Some(true));
    let mut driver = Vec::new();
    let r = fulfillment(&config(), &mut tx, &mut driver, "9.9.9", &body(&[Intent::Query]));
    let states = DeviceStatus {
        on: true,
        online: true,
        brightness: 100,
        color: DeviceColor { spectrum_rgb: 16711935 },
    };
    assert_eq!(
        Ok(Reply::Query(QueryResponse { request_id: "req-1".to_string(), devices: vec![states] })),
        r
    );
    assert!(tx.committed);
    assert!(driver.is_empty());
}

#[test]
fn fulfillment_of_execute_drives_the_light() {
    let mut tx = fresh();
    let mut driver = Vec::new();
    let r = fulfillment(&config(), &mut tx, &mut driver, "9.9.9", &body(&[Intent::Execute]));
    assert!(matches!(r, Ok(Reply::Execute(_))));
    assert_eq!(vec![WHITE], driver);
    assert!(tx.committed);
}

#[test]
fn fulfillment_of_disconnect_answers_the_empty_object() {
    let mut tx = fresh();
    let mut driver = Vec::new();
    let r = fulfillment(&config(), &mut tx, &mut driver, "9.9.9", &body(&[Intent::Disconnect]));
    assert_eq!(Ok(Reply::Disconnect), r);
    assert_eq!(fresh(), tx);
    assert!(driver.is_empty());
}

#[test]
fn fulfillment_goes_by_the_first_intent() {
    let mut tx = fresh();
    let mut driver = Vec::new();
    let r = fulfillment(
        &config(),
        &mut tx,
        &mut driver,
        "9.9.9",
        &body(&[Intent::Disconnect, Intent::Execute]),
    );
    assert_eq!(Ok(Reply::Disconnect), r);
    assert!(driver.is_empty());
}

#[test]
fn fulfillment_without_inputs_is_a_bad_request() {
    let mut tx = fresh();
    let mut driver = Vec::new();
    let r = fulfillment(&config(), &mut tx, &mut driver, "9.9.9", &body(&[]));
    assert_eq!(Err(Error::BadRequest), r);
    assert_eq!(fresh(), tx);
}

#[test]
fn fulfillment_of_an_unreadable_body_is_a_decode_failure() {
    let mut tx = fresh();
    let mut driver = Vec::new();
    let mut unreadable = body(&[Intent::Execute]);
    unreadable.basic = Err("expected value at line 1 column 1".to_string());
    let r = fulfillment(&config(), &mut tx, &mut driver, "9.9.9", &unreadable);
    assert_eq!(Err(Error::SerdeJson("expected value at line 1 column 1".to_string())), r);
    assert_eq!(fresh(), tx);
    assert!(driver.is_empty());
}

#[test]
fn fulfillment_reads_the_body_again_for_the_chosen_intent_only() {
    let mut tx = fresh();
    let mut driver = Vec::new();
    let mut partly = body(&[Intent::Execute]);
    partly.query = Err("missing field `devices`".to_string());
    let r = fulfillment(&config(), &mut tx, &mut driver, "9.9.9", &partly);
    assert!(matches!(r, Ok(Reply::Execute(_))));

    let mut tx = fresh();
    let mut driver = Vec::new();
    let mut partly = body(&[Intent::Query]);
    partly.query = Err("missing field `devices`".to_string());
    let r = fulfillment(&config(), &mut tx, &mut driver, "9.9.9", &partly);
    assert_eq!(Err(Error::SerdeJson("missing field `devices`".to_string())), r);

    let mut tx = fresh();
    let mut driver = Vec::new();
    let mut partly = body(&[Intent::Execute]);
    partly.execute = Err("missing field `commands`".to_string());
    let r = fulfillment(&config(), &mut tx, &mut driver, "9.9.9", &partly);
    assert_eq!(Err(Error::SerdeJson("missing field `commands`".to_string())), r);
    assert!(driver.is_empty());
}

#[test]
fn errors_report_their_status_and_text() {
    assert_eq!(401, Error::Unauthorized.status_code());
    assert_eq!(500, Error::Mysql("gone".to_string()).status_code());
    assert_eq!(400, Error::InvalidGrant.status_code());
    assert_eq!(500, Error::Refinery("bad".to_string()).status_code());
    assert_eq!(500, Error::Io("disk".to_string()).status_code());
    assert_eq!(400, Error::SerdeJson("eof".to_string()).status_code());
    assert_eq!(400, Error::BadRequest.status_code());
    assert_eq!("Unauthorized", Error::Unauthorized.message());
    assert_eq!("gone", Error::Mysql("gone".to_string()).message());
    assert_eq!("{\"error\":\"invalid_grant\"}", Error::InvalidGrant.message());
    assert_eq!("bad", Error::Refinery("bad".to_string()).message());
    assert_eq!("disk", Error::Io("disk".to_string()).message());
    assert_eq!("eof", Error::SerdeJson("eof".to_string()).message());
    assert_eq!("Bad Request", Error::BadRequest.message());
}

#[test]
fn only_query_and_execute_need_a_transaction() {
    assert!(!needs_transaction(&body(&[Intent::Sync])));
    assert!(!needs_transaction(&body(&[Intent::Disconnect])));
    assert!(!needs_transaction(&body(&[])));
    assert!(needs_transaction(&body(&[Intent::Query])));
    assert!(needs_transaction(&body(&[Intent::Execute])));
    assert!(needs_transaction(&body(&[Intent::Execute, Intent::Sync])));
    assert!(!needs_transaction(&body(&[Intent::Sync, Intent::Execute])));
}

#[test]
fn a_body_that_cannot_be_read_needs_no_transaction() {
    let mut unreadable = body(&[Intent::Execute]);
    unreadable.basic = Err("eof".to_string());
    assert!(!needs_transaction(&unreadable));
    let mut partly = body(&[Intent::Execute]);
    partly.execute = Err("eof".to_string());
    assert!(!needs_transaction(&partly));
    let mut partly = body(&[Intent::Query]);
    partly.query = Err("eof".to_string());
    assert!(!needs_transaction(&partly));
    let mut partly = body(&[Intent::Query]);
    partly.execute = Err("eof".to_string());
    assert!(needs_transaction(&partly));
}

#[test]
fn a_query_for_another_device_needs_no_transaction() {
    for ids in [&["1", "0"][..], &[][..]] {
        let mut other = body(&[Intent::Query]);
        other.query = Ok(asking(ids));
        assert!(!needs_transaction(&other));
    }
    let mut empty = body(&[Intent::Query]);
    empty.query = Ok(QueryRequest { request_id: "q".to_string(), inputs: vec![] });
    assert!(!needs_transaction(&empty));
    let mut empty = body(&[Intent::Execute]);
    empty.execute = Ok(ExecuteRequest { request_id: "e".to_string(), inputs: vec![] });
    assert!(!needs_transaction(&empty));
}

#[test]
fn a_request_that_needs_no_transaction_leaves_it_alone() {
    let mut cases = vec![body(&[Intent::Sync]), body(&[Intent::Disconnect]), body(&[])];
    let mut other = body(&[Intent::Query]);
    other.query = Ok(asking(&["5"]));
    cases.push(other);
    for case in cases {
        assert!(!needs_transaction(&case));
        let mut tx = holding(Some(PURPLE), Some(true));
        let before = tx.clone();
        let mut driver = vec![WHITE];
        let _ = fulfillment(&config(), &mut tx, &mut driver, "1", &case);
        assert_eq!(before, tx);
        assert_eq!(vec![WHITE], driver);
    }
}
