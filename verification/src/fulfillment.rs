//! The fulfilment protocol: the four intents of the smart-home platform and
//! what each does to the one light, whose id is `"0"`.
//!
//! A handler works inside one transaction and hands the colours that the
//! light is to show to the actuation queue, in order. It commits once, after
//! everything it was asked for has succeeded.

use vstd::prelude::*;
use crate::dal::{color_set, get_rgb, get_state, power_of, power_set, set_rgb, set_state};
use crate::data::Config;
use crate::device::{
    brightness_of, rgb_of_spectrum, spectrum_of, with_brightness, zero_brightness_is_black, Rgb,
};
use crate::error::Error;
use crate::store::{committed, Transaction, TransactionView};

verus! {

/// What a request asks for.
#[derive(Debug, Clone, Copy, PartialEq, Eq, Structural)]
pub enum Intent {
    Sync,
    Query,
    Execute,
    Disconnect,
}

/// One input of a request, read only as far as its intent.
#[derive(Debug, Clone, Copy, PartialEq, Eq, Structural)]
pub struct BasicInput {
    pub intent: Intent,
}

/// A request, read only as far as is needed to tell what it asks for.
#[derive(Debug, Clone, PartialEq, Eq)]
pub struct BasicRequest {
    pub request_id: String,
    pub inputs: Vec<BasicInput>,
}

/// A device named in a request.
#[derive(Debug, Clone, PartialEq, Eq)]
pub struct QueryDevice {
    pub id: String,
}

/// One input of a request for the state of devices.
#[derive(Debug, Clone, PartialEq, Eq)]
pub struct QueryInput {
    pub devices: Vec<QueryDevice>,
}

/// A request for the state of devices.
#[derive(Debug, Clone, PartialEq, Eq)]
pub struct QueryRequest {
    pub request_id: String,
    pub inputs: Vec<QueryInput>,
}

/// A colour in its packed form.
#[derive(Debug, Clone, Copy, PartialEq, Eq, Structural)]
pub struct DeviceColor {
    pub spectrum_rgb: i32,
}

/// The kind of a command.
#[derive(Debug, Clone, Copy, PartialEq, Eq, Structural)]
pub enum CommandType {
    BrightnessAbsolute,
    ColorAbsolute,
    OnOff,
}

/// The parameters of a command. Each kind of command needs one of them.
#[derive(Debug, Clone, Copy, PartialEq, Eq, Structural)]
pub struct CommandParams {
    pub brightness: Option<u8>,
    pub color: Option<DeviceColor>,
    pub on: Option<bool>,
}

/// A command with its parameters.
#[derive(Debug, Clone, Copy, PartialEq, Eq, Structural)]
pub struct Command {
    pub command: CommandType,
    pub params: CommandParams,
}

/// A device that a group of commands is meant for.
#[derive(Debug, Clone, PartialEq, Eq)]
pub struct ExecuteTarget {
    pub id: String,
}

/// A group of commands with the devices they are meant for.
#[derive(Debug, Clone, PartialEq, Eq)]
pub struct TargettedExecution {
    pub devices: Vec<ExecuteTarget>,
    pub execution: Vec<Command>,
}

/// One input of a request to execute commands.
#[derive(Debug, Clone, PartialEq, Eq)]
pub struct ExecuteInput {
    pub commands: Vec<TargettedExecution>,
}

/// A request to execute commands.
#[derive(Debug, Clone, PartialEq, Eq)]
pub struct ExecuteRequest {
    pub request_id: String,
    pub inputs: Vec<ExecuteInput>,
}

/// The state of the light as it is reported.
#[derive(Debug, Clone, Copy, PartialEq, Eq, Structural)]
pub struct DeviceStatus {
    pub on: bool,
    pub online: bool,
    pub brightness: u8,
    pub color: DeviceColor,
}

/// The answer to a request for the state of devices: the state of the light,
/// or nothing where the request did not name it first.
#[derive(Debug, Clone, PartialEq, Eq)]
pub struct QueryResponse {
    pub request_id: String,
    pub devices: Vec<DeviceStatus>,
}

/// The result of a group of commands.
#[derive(Debug, Clone, PartialEq, Eq)]
pub struct CommandResponse {
    pub ids: Vec<String>,
    pub status: String,
    pub states: DeviceStatus,
}

/// The answer to a request to execute commands.
#[derive(Debug, Clone, PartialEq, Eq)]
pub struct ExecuteResponse {
    pub request_id: String,
    pub commands: Vec<CommandResponse>,
}

/// The description of a device.
#[derive(Debug, Clone, PartialEq, Eq)]
pub struct Device {
    pub id: String,
    pub device_type: String,
    pub traits: Vec<String>,
    pub name: String,
    pub manufacturer: String,
    pub model: String,
    pub hw_version: String,
    pub sw_version: String,
    pub color_model: String,
}

/// The answer to a request for the devices of a user.
#[derive(Debug, Clone, PartialEq, Eq)]
pub struct SyncResponse {
    pub request_id: String,
    pub agent_user_id: String,
    pub devices: Vec<Device>,
}

/// The number of colours that may wait in the actuation queue. A request
/// that finds the queue full waits until there is room; no colour is dropped
/// and none overtakes another.
pub const QUEUE_CAPACITY: usize = 250;

/// The id of the light.
pub open spec fn light_id() -> Seq<char> {
    "0"@
}

/// A request as far as its intents: its id and the input of each intent.
pub struct BasicRequestView {
    pub request_id: Seq<char>,
    pub inputs: Seq<BasicInput>,
}

impl View for BasicRequest {
    type V = BasicRequestView;

    open spec fn view(&self) -> BasicRequestView {
        BasicRequestView { request_id: self.request_id@, inputs: self.inputs@ }
    }
}

/// The ids of the devices that a request names, in order.
pub open spec fn query_ids(devices: Seq<QueryDevice>) -> Seq<Seq<char>> {
    devices.map_values(|device: QueryDevice| device.id@)
}

/// A request for the state of devices: its id and the ids that it names.
pub struct QueryRequestView {
    pub request_id: Seq<char>,
    /// For each input, the ids of the devices it names.
    pub inputs: Seq<Seq<Seq<char>>>,
}

impl View for QueryRequest {
    type V = QueryRequestView;

    open spec fn view(&self) -> QueryRequestView {
        QueryRequestView {
            request_id: self.request_id@,
            inputs: self.inputs@.map_values(|input: QueryInput| query_ids(input.devices@)),
        }
    }
}

/// The ids of the devices that a group of commands is meant for, in order.
pub open spec fn target_ids(devices: Seq<ExecuteTarget>) -> Seq<Seq<char>> {
    devices.map_values(|device: ExecuteTarget| device.id@)
}

/// A group of commands: the ids of its devices, and its commands.
pub struct GroupView {
    pub devices: Seq<Seq<char>>,
    pub execution: Seq<Command>,
}

impl View for TargettedExecution {
    type V = GroupView;

    open spec fn view(&self) -> GroupView {
        GroupView { devices: target_ids(self.devices@), execution: self.execution@ }
    }
}

/// The groups of commands of an input, in order.
pub open spec fn groups_view(groups: Seq<TargettedExecution>) -> Seq<GroupView> {
    groups.map_values(|group: TargettedExecution| group@)
}

/// A request to execute commands: its id and its groups.
pub struct ExecuteRequestView {
    pub request_id: Seq<char>,
    /// For each input, its groups of commands.
    pub inputs: Seq<Seq<GroupView>>,
}

impl View for ExecuteRequest {
    type V = ExecuteRequestView;

    open spec fn view(&self) -> ExecuteRequestView {
        ExecuteRequestView {
            request_id: self.request_id@,
            inputs: self.inputs@.map_values(|input: ExecuteInput| groups_view(input.commands@)),
        }
    }
}

/// The answer to a request for the state of devices.
pub struct QueryResponseView {
    pub request_id: Seq<char>,
    pub devices: Seq<DeviceStatus>,
}

impl View for QueryResponse {
    type V = QueryResponseView;

    open spec fn view(&self) -> QueryResponseView {
        QueryResponseView { request_id: self.request_id@, devices: self.devices@ }
    }
}

/// The result of a group of commands.
pub struct CommandResponseView {
    pub ids: Seq<Seq<char>>,
    pub status: Seq<char>,
    pub states: DeviceStatus,
}

impl View for CommandResponse {
    type V = CommandResponseView;

    open spec fn view(&self) -> CommandResponseView {
        CommandResponseView {
            ids: self.ids@.map_values(|id: String| id@),
            status: self.status@,
            states: self.states,
        }
    }
}

/// The answer to a request to execute commands.
pub struct ExecuteResponseView {
    pub request_id: Seq<char>,
    pub commands: Seq<CommandResponseView>,
}

impl View for ExecuteResponse {
    type V = ExecuteResponseView;

    open spec fn view(&self) -> ExecuteResponseView {
        ExecuteResponseView {
            request_id: self.request_id@,
            commands: self.commands@.map_values(|command: CommandResponse| command@),
        }
    }
}

/// The description of a device.
pub struct DeviceView {
    pub id: Seq<char>,
    pub device_type: Seq<char>,
    pub traits: Seq<Seq<char>>,
    pub name: Seq<char>,
    pub manufacturer: Seq<char>,
    pub model: Seq<char>,
    pub hw_version: Seq<char>,
    pub sw_version: Seq<char>,
    pub color_model: Seq<char>,
}

impl View for Device {
    type V = DeviceView;

    open spec fn view(&self) -> DeviceView {
        DeviceView {
            id: self.id@,
            device_type: self.device_type@,
            traits: self.traits@.map_values(|name: String| name@),
            name: self.name@,
            manufacturer: self.manufacturer@,
            model: self.model@,
            hw_version: self.hw_version@,
            sw_version: self.sw_version@,
            color_model: self.color_model@,
        }
    }
}

/// The answer to a request for the devices of a user.
pub struct SyncResponseView {
    pub request_id: Seq<char>,
    pub agent_user_id: Seq<char>,
    pub devices: Seq<DeviceView>,
}

impl View for SyncResponse {
    type V = SyncResponseView;

    open spec fn view(&self) -> SyncResponseView {
        SyncResponseView {
            request_id: self.request_id@,
            agent_user_id: self.agent_user_id@,
            devices: self.devices@.map_values(|device: Device| device@),
        }
    }
}

/// A transaction together with the colours handed to the actuation queue
/// so far, oldest first.
pub struct Session {
    pub tx: TransactionView,
    pub sent: Seq<Rgb>,
}

/// The colour that is stored, black where none is.
pub open spec fn stored_color(tx: TransactionView) -> Rgb {
    match tx.store.color {
        Some(rgb) => rgb,
        None => Rgb { r: 0, g: 0, b: 0 },
    }
}

/// Whether the light is stored as on; it is off where nothing is stored.
pub open spec fn stored_on(tx: TransactionView) -> bool {
    power_of(tx) == Some(true)
}

/// The state of the light as a transaction sees it: a light that is off
/// reports brightness 0 and still reports its colour.
pub open spec fn status_of(tx: TransactionView) -> DeviceStatus {
    DeviceStatus {
        on: stored_on(tx),
        online: true,
        brightness: if stored_on(tx) {
            brightness_of(stored_color(tx)) as u8
        } else {
            0
        },
        color: DeviceColor { spectrum_rgb: spectrum_of(stored_color(tx)) as i32 },
    }
}

/// The colour that switching the light on shows: the stored one, but white
/// where none is stored or the stored one is black.
pub open spec fn wake_color(tx: TransactionView) -> Rgb {
    match tx.store.color {
        Some(rgb) => if rgb == (Rgb { r: 0, g: 0, b: 0 }) {
            Rgb { r: 255, g: 255, b: 255 }
        } else {
            rgb
        },
        None => Rgb { r: 255, g: 255, b: 255 },
    }
}

/// The session after one command, or `None` where the command lacks the
/// parameter that its kind needs.
///
/// - A brightness dims the stored colour, shows and stores the result, and
///   stores the light as on exactly if the brightness is above zero.
/// - A colour is stored in any case, and shown only if the light is on.
/// - Switching on shows and stores the colour to wake with, and stores the
///   light as on.
/// - Switching off shows black and stores the light as off. The stored colour
///   stays.
pub open spec fn command_applied(s: Session, c: Command) -> Option<Session> {
    match c.command {
        CommandType::BrightnessAbsolute => match c.params.brightness {
            None => None,
            Some(brightness) => {
                let rgb = with_brightness(stored_color(s.tx), brightness as int);
                Some(
                    Session {
                        tx: power_set(color_set(s.tx, rgb), brightness > 0),
                        sent: s.sent.push(rgb),
                    },
                )
            },
        },
        CommandType::ColorAbsolute => match c.params.color {
            None => None,
            Some(color) => {
                let rgb = rgb_of_spectrum(color.spectrum_rgb as int);
                Some(
                    Session {
                        tx: color_set(s.tx, rgb),
                        sent: if stored_on(s.tx) {
                            s.sent.push(rgb)
                        } else {
                            s.sent
                        },
                    },
                )
            },
        },
        CommandType::OnOff => match c.params.on {
            None => None,
            Some(true) => {
                let rgb = wake_color(s.tx);
                Some(Session { tx: color_set(power_set(s.tx, true), rgb), sent: s.sent.push(rgb) })
            },
            Some(false) => Some(
                Session { tx: power_set(s.tx, false), sent: s.sent.push(Rgb { r: 0, g: 0, b: 0 }) },
            ),
        },
    }
}

/// The session after the commands have been applied in order, up to the
/// first one that lacks its parameter, and whether all of them were applied.
pub open spec fn commands_applied(s: Session, commands: Seq<Command>) -> (Session, bool)
    decreases commands.len(),
{
    if commands.len() == 0 {
        (s, true)
    } else {
        match command_applied(s, commands[0]) {
            None => (s, false),
            Some(next) => commands_applied(next, commands.drop_first()),
        }
    }
}

/// How the groups of a request ended.
pub enum Flow {
    /// Every command of every group was applied.
    Done,
    /// A group is not meant for the light.
    NoTarget,
    /// A command lacks the parameter that its kind needs.
    Incomplete,
}

/// The session after the groups have been gone through in order, and how
/// that ended. A group that is not meant for the light ends it at once, and
/// so does a command that lacks its parameter.
pub open spec fn groups_applied(s: Session, groups: Seq<GroupView>) -> (Session, Flow)
    decreases groups.len(),
{
    if groups.len() == 0 {
        (s, Flow::Done)
    } else if !groups[0].devices.contains(light_id()) {
        (s, Flow::NoTarget)
    } else {
        let (next, complete) = commands_applied(s, groups[0].execution);
        if complete {
            groups_applied(next, groups.drop_first())
        } else {
            (next, Flow::Incomplete)
        }
    }
}

/// The result of a group of commands that succeeded: the state that the
/// light is left in.
pub open spec fn success(states: DeviceStatus) -> CommandResponseView {
    CommandResponseView { ids: seq![light_id()], status: "SUCCESS"@, states }
}

/// What a request to execute commands comes to: the session that it leaves
/// and the answer to it.
pub struct Executed {
    pub session: Session,
    pub reply: Result<ExecuteResponseView, Error>,
}

/// What a request to execute commands comes to. Only the first input counts.
///
/// - Without an input the answer holds no result, and nothing happens.
/// - Where a group is not meant for the light, the answer holds no result, and
///   the transaction is not committed.
/// - Where a command lacks its parameter, the request is a bad request, and
///   the transaction is not committed.
/// - Else the transaction is committed, and the answer holds one result for
///   each group: each of them the state in which the whole request leaves
///   the light.
pub open spec fn executed(s: Session, request: ExecuteRequestView) -> Executed {
    let nothing = ExecuteResponseView { request_id: request.request_id, commands: Seq::empty() };
    if request.inputs.len() == 0 {
        Executed { session: s, reply: Ok(nothing) }
    } else {
        let groups = request.inputs[0];
        let (after, flow) = groups_applied(s, groups);
        match flow {
            Flow::NoTarget => Executed { session: after, reply: Ok(nothing) },
            Flow::Incomplete => Executed { session: after, reply: Err(Error::BadRequest) },
            Flow::Done => Executed {
                session: Session { tx: committed(after.tx), sent: after.sent },
                reply: Ok(
                    ExecuteResponseView {
                        request_id: request.request_id,
                        commands: Seq::new(
                            groups.len(),
                            |i: int| success(status_of(after.tx)),
                        ),
                    },
                ),
            },
        }
    }
}

/// What a request for the state of devices comes to: the transaction that it
/// leaves and the answer to it.
pub struct Queried {
    pub tx: TransactionView,
    pub reply: Result<QueryResponseView, Error>,
}

/// What a request for the state of devices comes to. Only the first device
/// of the first input counts.
///
/// - Without an input the request is a bad request.
/// - Where the first input names no device, or names another device than the
///   light first, the answer holds no state.
/// - Else the transaction is committed, and the answer holds the state of the
///   light.
pub open spec fn queried(tx: TransactionView, request: QueryRequestView) -> Queried {
    if request.inputs.len() == 0 {
        Queried { tx, reply: Err(Error::BadRequest) }
    } else if request.inputs[0].len() == 0 || request.inputs[0][0] != light_id() {
        Queried {
            tx,
            reply: Ok(QueryResponseView { request_id: request.request_id, devices: Seq::empty() }),
        }
    } else {
        Queried {
            tx: committed(tx),
            reply: Ok(
                QueryResponseView { request_id: request.request_id, devices: seq![status_of(tx)] },
            ),
        }
    }
}

/// The description of the light: one device, which can be switched, coloured
/// and dimmed.
pub open spec fn light(sw_version: Seq<char>) -> DeviceView {
    DeviceView {
        id: light_id(),
        device_type: "action.devices.types.LIGHT"@,
        traits: seq![
            "action.devices.traits.OnOff"@,
            "action.devices.traits.ColorSetting"@,
            "action.devices.traits.Brightness"@,
        ],
        name: "DeskLed"@,
        manufacturer: "Array21 Development"@,
        model: "PiZero"@,
        hw_version: "0.1.0"@,
        sw_version,
        color_model: "rgb"@,
    }
}

/// The state of the light as the transaction sees it.
pub fn device_status(tx: &Transaction) -> (status: DeviceStatus)
    ensures
        status == status_of(tx@),
{
    let rgb = match get_rgb(tx) {
        Some(rgb) => rgb,
        None => Rgb::off(),
    };
    let on = match get_state(tx) {
        Some(on) => on,
        None => false,
    };
    DeviceStatus {
        on,
        online: true,
        brightness: if on {
            rgb.get_brightness()
        } else {
            0
        },
        color: DeviceColor { spectrum_rgb: rgb.into_spectrum_rgb() },
    }
}

/// Applies one command: changes the stored state and hands the colour to
/// show to the actuation queue. A command that lacks its parameter changes
/// nothing.
pub fn apply_command(tx: &mut Transaction, driver: &mut Vec<Rgb>, command: &Command) -> (r: Result<
    (),
    Error,
>)
    ensures
        match command_applied(Session { tx: old(tx)@, sent: old(driver)@ }, *command) {
            Some(next) => r is Ok && final(tx)@ == next.tx && final(driver)@ == next.sent,
            None => {
                &&& r == Err::<(), Error>(Error::BadRequest)
                &&& final(tx)@ == old(tx)@
                &&& final(driver)@ == old(driver)@
            },
        },
{
    match command.command {
        CommandType::BrightnessAbsolute => {
            let brightness = match command.params.brightness {
                Some(brightness) => brightness,
                None => {
                    return Err(Error::BadRequest);
                },
            };
            let mut current = match get_rgb(tx) {
                Some(rgb) => rgb,
                None => Rgb::off(),
            };
            current.set_brightness(brightness);
            driver.push(current);
            set_rgb(tx, current);
            set_state(tx, brightness > 0);
        },
        CommandType::ColorAbsolute => {
            let color = match command.params.color {
                Some(color) => color.spectrum_rgb,
                None => {
                    return Err(Error::BadRequest);
                },
            };
            let rgb = Rgb::from_spectrum_rgb(color);
            let on = match get_state(tx) {
                Some(on) => on,
                None => false,
            };
            if on {
                driver.push(rgb);
            }
            set_rgb(tx, rgb);
        },
        CommandType::OnOff => {
            let on = match command.params.on {
                Some(on) => on,
                None => {
                    return Err(Error::BadRequest);
                },
            };
            if on {
                let stored = match get_rgb(tx) {
                    Some(rgb) => rgb,
                    None => Rgb::on(),
                };
                let rgb = if stored.is_off() {
                    Rgb::on()
                } else {
                    stored
                };
                driver.push(rgb);
                set_state(tx, true);
                set_rgb(tx, rgb);
            } else {
                driver.push(Rgb::off());
                set_state(tx, false);
            }
        },
    }
    Ok(())
}

fn apply_commands(tx: &mut Transaction, driver: &mut Vec<Rgb>, commands: &Vec<Command>) -> (r:
    Result<(), Error>)
    ensures
        ({
            let (next, complete) = commands_applied(
                Session { tx: old(tx)@, sent: old(driver)@ },
                commands@,
            );
            &&& final(tx)@ == next.tx
            &&& final(driver)@ == next.sent
            &&& if complete {
                r is Ok
            } else {
                r == Err::<(), Error>(Error::BadRequest)
            }
        }),
{
    let ghost start = Session { tx: tx@, sent: driver@ };
    let mut i: usize = 0;
    assert(commands@.skip(0) =~= commands@);
    while i < commands.len()
        invariant
            i <= commands.len(),
            start == (Session { tx: old(tx)@, sent: old(driver)@ }),
            commands_applied(start, commands@) == commands_applied(
                Session { tx: tx@, sent: driver@ },
                commands@.skip(i as int),
            ),
        decreases commands.len() - i,
    {
        assert(commands@.skip(i as int).drop_first() =~= commands@.skip(i + 1));
        match apply_command(tx, driver, &commands[i]) {
            Ok(()) => {},
            Err(e) => {
                return Err(e);
            },
        }
        i += 1;
    }
    Ok(())
}

/// Whether a group of commands is meant for the light.
pub fn has_light(devices: &Vec<ExecuteTarget>) -> (found: bool)
    ensures
        found == target_ids(devices@).contains(light_id()),
{
    let zero = String::from_str("0");
    let mut i: usize = 0;
    while i < devices.len()
        invariant
            i <= devices.len(),
            zero@ == light_id(),
            forall|j: int| 0 <= j < i ==> (#[trigger] target_ids(devices@)[j]) != light_id(),
        decreases devices.len() - i,
    {
        if devices[i].id == zero {
            assert(target_ids(devices@)[i as int] == light_id());
            return true;
        }
        i += 1;
    }
    false
}

fn apply_groups(
    tx: &mut Transaction,
    driver: &mut Vec<Rgb>,
    groups: &Vec<TargettedExecution>,
) -> (flow: Flow)
    ensures
        ({
            let (next, ended) = groups_applied(
                Session { tx: old(tx)@, sent: old(driver)@ },
                groups_view(groups@),
            );
            &&& final(tx)@ == next.tx
            &&& final(driver)@ == next.sent
            &&& flow == ended
        }),
{
    let ghost start = Session { tx: tx@, sent: driver@ };
    let ghost all = groups_view(groups@);
    let mut i: usize = 0;
    assert(all.skip(0) =~= all);
    while i < groups.len()
        invariant
            i <= groups.len(),
            all == groups_view(groups@),
            start == (Session { tx: old(tx)@, sent: old(driver)@ }),
            groups_applied(start, all) == groups_applied(
                Session { tx: tx@, sent: driver@ },
                all.skip(i as int),
            ),
        decreases groups.len() - i,
    {
        assert(all.skip(i as int).drop_first() =~= all.skip(i + 1));
        if !has_light(&groups[i].devices) {
            return Flow::NoTarget;
        }
        match apply_commands(tx, driver, &groups[i].execution) {
            Ok(()) => {},
            Err(_) => {
                return Flow::Incomplete;
            },
        }
        i += 1;
    }
    Flow::Done
}

fn nothing_executed(request_id: &String) -> (response: ExecuteResponse)
    ensures
        response@ == (ExecuteResponseView { request_id: request_id@, commands: Seq::empty() }),
{
    let response = ExecuteResponse { request_id: request_id.clone(), commands: Vec::new() };
    assert(response@.commands =~= Seq::empty());
    response
}

fn succeeded(states: DeviceStatus) -> (response: CommandResponse)
    ensures
        response@ == success(states),
{
    let mut ids: Vec<String> = Vec::new();
    ids.push(String::from_str("0"));
    let response = CommandResponse { ids, status: String::from_str("SUCCESS"), states };
    assert(response@.ids =~= seq![light_id()]);
    response
}

/// Executes the commands of a request on the light.
///
/// The transaction and the actuation queue are left as [`executed`] says,
/// and so is the answer: no result at all where the request has no input or
/// one of its groups is not meant for the light, a bad request where a
/// command lacks its parameter, and else one result for each group.
pub fn execute(tx: &mut Transaction, driver: &mut Vec<Rgb>, request: &ExecuteRequest) -> (r: Result<
    ExecuteResponse,
    Error,
>)
    ensures
        ({
            let outcome = executed(Session { tx: old(tx)@, sent: old(driver)@ }, request@);
            &&& final(tx)@ == outcome.session.tx
            &&& final(driver)@ == outcome.session.sent
            &&& match r {
                Ok(response) => outcome.reply == Ok::<ExecuteResponseView, Error>(response@),
                Err(e) => outcome.reply == Err::<ExecuteResponseView, Error>(e),
            }
        }),
{
    if request.inputs.len() == 0 {
        return Ok(nothing_executed(&request.request_id));
    }
    let input = &request.inputs[0];
    match apply_groups(tx, driver, &input.commands) {
        Flow::NoTarget => Ok(nothing_executed(&request.request_id)),
        Flow::Incomplete => Err(Error::BadRequest),
        Flow::Done => {
            let states = device_status(tx);
            tx.commit();
            let mut commands: Vec<CommandResponse> = Vec::new();
            let mut i: usize = 0;
            while i < input.commands.len()
                invariant
                    i <= input.commands.len(),
                    commands@.len() == i,
                    forall|j: int| 0 <= j < i ==> (#[trigger] commands@[j])@ == success(states),
                decreases input.commands.len() - i,
            {
                commands.push(succeeded(states));
                i += 1;
            }
            let response = ExecuteResponse { request_id: request.request_id.clone(), commands };
            assert(response@.commands =~= Seq::new(
                groups_view(input.commands@).len(),
                |i: int| success(states),
            ));
            Ok(response)
        },
    }
}

/// Answers a request for the state of devices.
///
/// The transaction is left as [`queried`] says, and so is the answer: a bad
/// request where the request has no input, no state where it does not name
/// the light first, and else the state of the light.
pub fn query(tx: &mut Transaction, request: &QueryRequest) -> (r: Result<QueryResponse, Error>)
    ensures
        ({
            let outcome = queried(old(tx)@, request@);
            &&& final(tx)@ == outcome.tx
            &&& match r {
                Ok(response) => outcome.reply == Ok::<QueryResponseView, Error>(response@),
                Err(e) => outcome.reply == Err::<QueryResponseView, Error>(e),
            }
        }),
{
    if request.inputs.len() == 0 {
        return Err(Error::BadRequest);
    }
    let input = &request.inputs[0];
    let zero = String::from_str("0");
    if input.devices.len() == 0 || input.devices[0].id != zero {
        let response = QueryResponse { request_id: request.request_id.clone(), devices: Vec::new() };
        return Ok(response);
    }
    let states = device_status(tx);
    tx.commit();
    let mut devices: Vec<DeviceStatus> = Vec::new();
    devices.push(states);
    let response = QueryResponse { request_id: request.request_id.clone(), devices };
    Ok(response)
}

/// Answers a request for the devices of a user: always the one light, as
/// [`light`] describes it, whatever state is stored. The user is the one who
/// may log in.
pub fn sync(config: &Config, sw_version: &str, request_id: String) -> (response: SyncResponse)
    ensures
        response@ == (SyncResponseView {
            request_id: request_id@,
            agent_user_id: config.login_username@,
            devices: seq![light(sw_version@)],
        }),
{
    let mut traits: Vec<String> = Vec::new();
    traits.push(String::from_str("action.devices.traits.OnOff"));
    traits.push(String::from_str("action.devices.traits.ColorSetting"));
    traits.push(String::from_str("action.devices.traits.Brightness"));
    let device = Device {
        id: String::from_str("0"),
        device_type: String::from_str("action.devices.types.LIGHT"),
        traits,
        name: String::from_str("DeskLed"),
        manufacturer: String::from_str("Array21 Development"),
        model: String::from_str("PiZero"),
        hw_version: String::from_str("0.1.0"),
        sw_version: String::from_str(sw_version),
        color_model: String::from_str("rgb"),
    };
    assert(device@.traits =~= light(sw_version@).traits);
    let mut devices: Vec<Device> = Vec::new();
    devices.push(device);
    let response = SyncResponse {
        request_id,
        agent_user_id: config.login_username.clone(),
        devices,
    };
    assert(response@.devices =~= seq![light(sw_version@)]);
    response
}

/// The body of a request as each schema reads it: as far as its intent, as a
/// request for the state of devices, and as a request to execute commands.
/// Where the body does not fit a schema, that reading is the decoder's
/// message.
#[derive(Debug, PartialEq, Eq)]
pub struct Decoded {
    pub basic: Result<BasicRequest, String>,
    pub query: Result<QueryRequest, String>,
    pub execute: Result<ExecuteRequest, String>,
}

/// The answer to a request.
#[derive(Debug, Clone, PartialEq, Eq)]
pub enum Reply {
    Sync(SyncResponse),
    Query(QueryResponse),
    Execute(ExecuteResponse),
    /// The empty object.
    Disconnect,
}

/// Whether `r` reports that the body did not fit a schema, with the
/// decoder's message.
pub open spec fn is_decode_failure(r: Result<Reply, Error>, text: String) -> bool {
    r matches Err(Error::SerdeJson(m)) && m@ == text@
}

/// Whether a request reads the store: it asks for the state of the light,
/// which it names first, or it asks to execute commands. Any other request is
/// answered without a transaction.
pub open spec fn reads_the_store(body: Decoded) -> bool {
    &&& body.basic matches Ok(basic)
    &&& basic.inputs@.len() > 0
    &&& match basic.inputs@[0].intent {
        Intent::Query => {
            &&& body.query matches Ok(request)
            &&& request@.inputs.len() > 0
            &&& request@.inputs[0].len() > 0
            &&& request@.inputs[0][0] == light_id()
        },
        Intent::Execute => body.execute matches Ok(request) && request@.inputs.len() > 0,
        Intent::Sync => false,
        Intent::Disconnect => false,
    }
}

/// Whether a request reads the store, so that a transaction must begin
/// before it is answered.
pub fn needs_transaction(body: &Decoded) -> (needed: bool)
    ensures
        needed == reads_the_store(*body),
{
    let basic = match &body.basic {
        Ok(basic) => basic,
        Err(_) => {
            return false;
        },
    };
    if basic.inputs.len() == 0 {
        return false;
    }
    match basic.inputs[0].intent {
        Intent::Query => match &body.query {
            Err(_) => false,
            Ok(request) => {
                if request.inputs.len() == 0 {
                    return false;
                }
                let input = &request.inputs[0];
                input.devices.len() > 0 && input.devices[0].id == String::from_str("0")
            },
        },
        Intent::Execute => match &body.execute {
            Err(_) => false,
            Ok(request) => request.inputs.len() > 0,
        },
        Intent::Sync => false,
        Intent::Disconnect => false,
    }
}

/// Answers a fulfilment request.
///
/// The body is first read only as far as its intent. A body that cannot be
/// read so is a decode failure, and one without an input is a bad request.
/// The intent of the first input then chooses the handler, and only then does
/// it matter whether the body fits that handler's schema:
///
/// - `Sync` answers with the description of the light;
/// - `Query` answers as [`query`] does;
/// - `Execute` answers as [`execute`] does;
/// - `Disconnect` answers with the empty object.
///
/// Only `Query` and `Execute` touch the transaction, and only `Execute` the
/// actuation queue. A request that does not read the store leaves both as
/// they were.
pub fn fulfillment(
    config: &Config,
    tx: &mut Transaction,
    driver: &mut Vec<Rgb>,
    sw_version: &str,
    body: &Decoded,
) -> (r: Result<Reply, Error>)
    ensures
        !reads_the_store(*body) ==> final(tx)@ == old(tx)@ && final(driver)@ == old(driver)@,
        match body.basic {
            Err(text) => {
                &&& is_decode_failure(r, text)
                &&& final(tx)@ == old(tx)@
                &&& final(driver)@ == old(driver)@
            },
            Ok(basic) => if basic.inputs@.len() == 0 {
                &&& r == Err::<Reply, Error>(Error::BadRequest)
                &&& final(tx)@ == old(tx)@
                &&& final(driver)@ == old(driver)@
            } else {
                match basic.inputs@[0].intent {
                    Intent::Sync => {
                        &&& r matches Ok(Reply::Sync(response))
                        &&& response@ == (SyncResponseView {
                            request_id: basic.request_id@,
                            agent_user_id: config.login_username@,
                            devices: seq![light(sw_version@)],
                        })
                        &&& final(tx)@ == old(tx)@
                        &&& final(driver)@ == old(driver)@
                    },
                    Intent::Query => match body.query {
                        Err(text) => {
                            &&& is_decode_failure(r, text)
                            &&& final(tx)@ == old(tx)@
                            &&& final(driver)@ == old(driver)@
                        },
                        Ok(request) => {
                            let outcome = queried(old(tx)@, request@);
                            &&& final(tx)@ == outcome.tx
                            &&& final(driver)@ == old(driver)@
                            &&& match r {
                                Ok(Reply::Query(response)) => outcome.reply == Ok::<
                                    QueryResponseView,
                                    Error,
                                >(response@),
                                Ok(_) => false,
                                Err(e) => outcome.reply == Err::<QueryResponseView, Error>(e),
                            }
                        },
                    },
                    Intent::Execute => match body.execute {
                        Err(text) => {
                            &&& is_decode_failure(r, text)
                            &&& final(tx)@ == old(tx)@
                            &&& final(driver)@ == old(driver)@
                        },
                        Ok(request) => {
                            let outcome = executed(
                                Session { tx: old(tx)@, sent: old(driver)@ },
                                request@,
                            );
                            &&& final(tx)@ == outcome.session.tx
                            &&& final(driver)@ == outcome.session.sent
                            &&& match r {
                                Ok(Reply::Execute(response)) => outcome.reply == Ok::<
                                    ExecuteResponseView,
                                    Error,
                                >(response@),
                                Ok(_) => false,
                                Err(e) => outcome.reply == Err::<ExecuteResponseView, Error>(e),
                            }
                        },
                    },
                    Intent::Disconnect => {
                        &&& r matches Ok(Reply::Disconnect)
                        &&& final(tx)@ == old(tx)@
                        &&& final(driver)@ == old(driver)@
                    },
                }
            },
        },
{
    let basic = match &body.basic {
        Ok(basic) => basic,
        Err(text) => {
            return Err(Error::SerdeJson(text.clone()));
        },
    };
    if basic.inputs.len() == 0 {
        return Err(Error::BadRequest);
    }
    match basic.inputs[0].intent {
        Intent::Sync => Ok(Reply::Sync(sync(config, sw_version, basic.request_id.clone()))),
        Intent::Query => match &body.query {
            Err(text) => Err(Error::SerdeJson(text.clone())),
            Ok(request) => match query(tx, request) {
                Ok(response) => Ok(Reply::Query(response)),
                Err(e) => Err(e),
            },
        },
        Intent::Execute => match &body.execute {
            Err(text) => Err(Error::SerdeJson(text.clone())),
            Ok(request) => match execute(tx, driver, request) {
                Ok(response) => Ok(Reply::Execute(response)),
                Err(e) => Err(e),
            },
        },
        Intent::Disconnect => Ok(Reply::Disconnect),
    }
}

/// Whether a command switches the light on (`on` true) or off.
pub open spec fn is_switch(c: Command, on: bool) -> bool {
    c.command == CommandType::OnOff && c.params.on == Some(on)
}

/// Switching the light on never shows black. Where black is stored, or
/// nothing, white is shown, stored and reported.
pub proof fn switch_on_is_never_black(s: Session, c: Command)
    requires
        is_switch(c, true),
    ensures
        ({
            let next = command_applied(s, c);
            let black = Rgb { r: 0, g: 0, b: 0 };
            let white = Rgb { r: 255, g: 255, b: 255 };
            &&& next matches Some(after)
            &&& after.sent == s.sent.push(after.sent.last())
            &&& after.sent.last() != black
            &&& after.tx.store.color == Some(after.sent.last())
            &&& status_of(after.tx).on
            &&& status_of(after.tx).color.spectrum_rgb == spectrum_of(after.sent.last())
            &&& (s.tx.store.color == Some(black) || s.tx.store.color is None)
                ==> after.sent.last() == white && status_of(after.tx).color.spectrum_rgb
                == 0xFF_FFFF
        }),
{
}

/// Switching the light off shows black and leaves the stored colour as it
/// is.
pub proof fn switch_off_keeps_the_stored_color(s: Session, c: Command)
    requires
        is_switch(c, false),
    ensures
        ({
            let next = command_applied(s, c);
            &&& next matches Some(after)
            &&& after.tx.store.color == s.tx.store.color
            &&& after.sent == s.sent.push(Rgb { r: 0, g: 0, b: 0 })
            &&& !status_of(after.tx).on
        }),
{
}

/// Switching the light off and on again shows and stores the colour that
/// was stored before, provided that one was stored and it is not black.
pub proof fn switch_off_and_on_restores_the_color(s: Session, off: Command, on: Command)
    requires
        is_switch(off, false),
        is_switch(on, true),
        s.tx.store.color is Some,
        s.tx.store.color != Some(Rgb { r: 0, g: 0, b: 0 }),
    ensures
        ({
            let (after, complete) = commands_applied(s, seq![off, on]);
            &&& complete
            &&& after.tx.store.color == s.tx.store.color
            &&& after.sent == s.sent.push(Rgb { r: 0, g: 0, b: 0 }).push(s.tx.store.color.unwrap())
            &&& status_of(after.tx).on
        }),
{
    let dark = command_applied(s, off).unwrap();
    let lit = command_applied(dark, on).unwrap();
    assert(seq![off, on].drop_first() =~= seq![on]);
    assert(seq![on].drop_first() =~= Seq::<Command>::empty());
    assert(commands_applied(lit, Seq::<Command>::empty()) == (lit, true));
    assert(commands_applied(dark, seq![on]) == (lit, true));
}

/// No command commits: a transaction is as committed after the commands of
/// a request as before.
pub proof fn commands_do_not_commit(s: Session, groups: Seq<GroupView>)
    ensures
        groups_applied(s, groups).0.tx.committed == s.tx.committed,
    decreases groups.len(),
{
    if groups.len() > 0 && groups[0].devices.contains(light_id()) {
        commands_keep_commitment(s, groups[0].execution);
        let (next, complete) = commands_applied(s, groups[0].execution);
        if complete {
            commands_do_not_commit(next, groups.drop_first());
        }
    }
}

proof fn commands_keep_commitment(s: Session, commands: Seq<Command>)
    ensures
        commands_applied(s, commands).0.tx.committed == s.tx.committed,
    decreases commands.len(),
{
    if commands.len() > 0 {
        match command_applied(s, commands[0]) {
            None => {},
            Some(next) => {
                commands_keep_commitment(next, commands.drop_first());
            },
        }
    }
}

/// A request is committed exactly if all its commands were applied, and
/// then its answer is no failure: a request that fails is never committed.
pub proof fn request_commits_exactly_on_success(s: Session, request: ExecuteRequestView)
    requires
        !s.tx.committed,
    ensures
        ({
            let outcome = executed(s, request);
            &&& outcome.session.tx.committed <==> request.inputs.len() > 0 && groups_applied(
                s,
                request.inputs[0],
            ).1 is Done
            &&& outcome.session.tx.committed ==> outcome.reply is Ok
        }),
{
    if request.inputs.len() > 0 {
        commands_do_not_commit(s, request.inputs[0]);
    }
}

/// The commands of a request are all applied only if every group is meant
/// for the light.
pub proof fn done_means_every_group_has_the_light(s: Session, groups: Seq<GroupView>)
    requires
        groups_applied(s, groups).1 is Done,
    ensures
        forall|i: int| 0 <= i < groups.len() ==> (#[trigger] groups[i]).devices.contains(light_id()),
    decreases groups.len(),
{
    if groups.len() > 0 {
        let (next, complete) = commands_applied(s, groups[0].execution);
        done_means_every_group_has_the_light(next, groups.drop_first());
        assert forall|i: int| 0 <= i < groups.len() implies (#[trigger] groups[i]).devices.contains(
            light_id(),
        ) by {
            if i > 0 {
                assert(groups[i] == groups.drop_first()[i - 1]);
            }
        }
    }
}

/// A request whose first group is not meant for the light does nothing: no
/// write, no colour for the actuation queue, no commit, and an answer
/// without a result.
pub proof fn request_for_another_device_does_nothing(s: Session, request: ExecuteRequestView)
    requires
        request.inputs.len() > 0,
        request.inputs[0].len() > 0,
        !request.inputs[0][0].devices.contains(light_id()),
    ensures
        executed(s, request) == (Executed {
            session: s,
            reply: Ok(
                ExecuteResponseView { request_id: request.request_id, commands: Seq::empty() },
            ),
        }),
{
}

/// A request with a group that is not meant for the light, whichever group
/// it is, stores nothing: the transaction is not committed, and the answer
/// holds no result or is a bad request.
pub proof fn request_with_a_foreign_group_stores_nothing(
    s: Session,
    request: ExecuteRequestView,
    i: int,
)
    requires
        !s.tx.committed,
        request.inputs.len() > 0,
        0 <= i < request.inputs[0].len(),
        !request.inputs[0][i].devices.contains(light_id()),
    ensures
        ({
            let outcome = executed(s, request);
            &&& !outcome.session.tx.committed
            &&& outcome.reply == Ok::<ExecuteResponseView, Error>(
                ExecuteResponseView { request_id: request.request_id, commands: Seq::empty() },
            ) || outcome.reply == Err::<ExecuteResponseView, Error>(Error::BadRequest)
        }),
{
    let groups = request.inputs[0];
    commands_do_not_commit(s, groups);
    if groups_applied(s, groups).1 is Done {
        done_means_every_group_has_the_light(s, groups);
    }
}

/// A session whose colours stand behind those that the queue held before.
pub open spec fn behind(held: Seq<Rgb>, s: Session) -> Session {
    Session { tx: s.tx, sent: held + s.sent }
}

/// A transaction that starts with an empty queue.
pub open spec fn alone(tx: TransactionView) -> Session {
    Session { tx, sent: Seq::empty() }
}

proof fn command_appends(tx: TransactionView, held: Seq<Rgb>, c: Command)
    ensures
        command_applied(Session { tx, sent: held }, c) == match command_applied(alone(tx), c) {
            Some(next) => Some(behind(held, next)),
            None => None,
        },
{
    match command_applied(alone(tx), c) {
        Some(next) => {
            let with_held = command_applied(Session { tx, sent: held }, c).unwrap();
            assert(with_held.sent =~= held + next.sent);
        },
        None => {},
    }
}

proof fn commands_append(tx: TransactionView, held: Seq<Rgb>, commands: Seq<Command>)
    ensures
        commands_applied(Session { tx, sent: held }, commands) == (
            behind(held, commands_applied(alone(tx), commands).0),
            commands_applied(alone(tx), commands).1,
        ),
    decreases commands.len(),
{
    if commands.len() > 0 {
        command_appends(tx, held, commands[0]);
        if let Some(next) = command_applied(alone(tx), commands[0]) {
            let rest = commands.drop_first();
            commands_append(next.tx, held + next.sent, rest);
            commands_append(next.tx, next.sent, rest);
            let end = commands_applied(alone(next.tx), rest).0;
            assert((held + next.sent) + end.sent =~= held + (next.sent + end.sent));
        }
    }
}

proof fn groups_append(tx: TransactionView, held: Seq<Rgb>, groups: Seq<GroupView>)
    ensures
        groups_applied(Session { tx, sent: held }, groups) == (
            behind(held, groups_applied(alone(tx), groups).0),
            groups_applied(alone(tx), groups).1,
        ),
    decreases groups.len(),
{
    if groups.len() > 0 && groups[0].devices.contains(light_id()) {
        commands_append(tx, held, groups[0].execution);
        let (next, complete) = commands_applied(alone(tx), groups[0].execution);
        if complete {
            let rest = groups.drop_first();
            groups_append(next.tx, held + next.sent, rest);
            groups_append(next.tx, next.sent, rest);
            let end = groups_applied(alone(next.tx), rest).0;
            assert((held + next.sent) + end.sent =~= held + (next.sent + end.sent));
        }
    }
}

/// A request adds its colours at the end of the actuation queue, in the
/// order of its commands, and leaves what the queue held as it is. Which
/// colours it adds, what it stores and what it answers do not depend on what
/// the queue held.
pub proof fn request_appends_to_the_queue(
    tx: TransactionView,
    held: Seq<Rgb>,
    request: ExecuteRequestView,
)
    ensures
        ({
            let own = executed(alone(tx), request);
            let outcome = executed(Session { tx, sent: held }, request);
            &&& outcome.session.sent == held + own.session.sent
            &&& outcome.session.tx == own.session.tx
            &&& outcome.reply == own.reply
        }),
{
    if request.inputs.len() > 0 {
        groups_append(tx, held, request.inputs[0]);
    }
}

/// Whether the light shows what the store says: the stored colour while the
/// light is stored as on, and black while it is not.
pub open spec fn shows_what_is_stored(tx: TransactionView, shown: Rgb) -> bool {
    shown == if stored_on(tx) {
        stored_color(tx)
    } else {
        Rgb { r: 0, g: 0, b: 0 }
    }
}

/// The colour that the light shows once the queue has been worked off: the
/// last one of the queue, or the one it showed before where the queue is
/// empty.
pub open spec fn shown_after(before: Rgb, sent: Seq<Rgb>) -> Rgb {
    if sent.len() == 0 {
        before
    } else {
        sent.last()
    }
}

/// A command keeps the light and the rows of its transaction in step: where
/// the light showed what was stored, it shows what the transaction holds
/// after the command as well, once the queue has been worked off.
pub proof fn command_keeps_light_and_store_in_step(tx: TransactionView, before: Rgb, c: Command)
    requires
        shows_what_is_stored(tx, before),
    ensures
        command_applied(alone(tx), c) matches Some(next) ==> shows_what_is_stored(
            next.tx,
            shown_after(before, next.sent),
        ),
{
    zero_brightness_is_black(stored_color(tx));
}

/// Commands keep the light and the rows of their transaction in step, as
/// far as they are applied.
pub proof fn commands_keep_light_and_store_in_step(
    tx: TransactionView,
    before: Rgb,
    commands: Seq<Command>,
)
    requires
        shows_what_is_stored(tx, before),
    ensures
        ({
            let next = commands_applied(alone(tx), commands).0;
            shows_what_is_stored(next.tx, shown_after(before, next.sent))
        }),
    decreases commands.len(),
{
    if commands.len() > 0 {
        command_keeps_light_and_store_in_step(tx, before, commands[0]);
        if let Some(next) = command_applied(alone(tx), commands[0]) {
            let rest = commands.drop_first();
            commands_keep_light_and_store_in_step(next.tx, shown_after(before, next.sent), rest);
            commands_append(next.tx, next.sent, rest);
        }
    }
}

/// A request keeps the light and the rows of its transaction in step: where
/// the light showed what was stored before the request, it shows what the
/// transaction holds after it, once the queue has been worked off. Where the
/// request is committed, that is what the store holds from then on.
pub proof fn request_keeps_light_and_store_in_step(
    tx: TransactionView,
    before: Rgb,
    request: ExecuteRequestView,
)
    requires
        shows_what_is_stored(tx, before),
    ensures
        ({
            let outcome = executed(alone(tx), request);
            shows_what_is_stored(outcome.session.tx, shown_after(before, outcome.session.sent))
        }),
{
    if request.inputs.len() > 0 {
        groups_keep_light_and_store_in_step(tx, before, request.inputs[0]);
    }
}

proof fn groups_keep_light_and_store_in_step(
    tx: TransactionView,
    before: Rgb,
    groups: Seq<GroupView>,
)
    requires
        shows_what_is_stored(tx, before),
    ensures
        ({
            let next = groups_applied(alone(tx), groups).0;
            shows_what_is_stored(next.tx, shown_after(before, next.sent))
        }),
    decreases groups.len(),
{
    if groups.len() > 0 && groups[0].devices.contains(light_id()) {
        commands_keep_light_and_store_in_step(tx, before, groups[0].execution);
        let (next, complete) = commands_applied(alone(tx), groups[0].execution);
        if complete {
            let rest = groups.drop_first();
            groups_keep_light_and_store_in_step(next.tx, shown_after(before, next.sent), rest);
            groups_append(next.tx, next.sent, rest);
        }
    }
}

} // verus!
