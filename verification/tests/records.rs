use space_traders::api::decode_api_response;
use space_traders::api::responses::fleet::{GetShipCooldown, NavigateShip, ShipRefine};
use space_traders::api::results::ApiError;
use space_traders::decode::{optional_field, required_field, DecodeError, FromJson, JsonKind, Shape};
use space_traders::json::Json;
use space_traders::schemas::{
    Agent, Chart, Contract, ContractDeliverGood, ContractPayment, ContractTerms, ContractType, Cooldown, Faction,
    FactionTraitSymbols, ShipCargo, ShipCrew, ShipCrewRotation, ShipFuel, ShipFuelConsumption, ShipMount,
    ShipMountSymbols, ShipRequirements, Survey, Symbolic, SystemType, SystemWaypoint, Timestamp, TypedSymbolic,
    Waypoint, WaypointTraitSymbol, WaypointType, Deposits, System,
};

fn tree(text: &str) -> Json {
    Json::parse(text).unwrap()
}

const WAYPOINT: &str = r#"{
    "symbol": "X1-DF55-20250Z",
    "type": "PLANET",
    "systemSymbol": "X1-DF55",
    "x": 12,
    "y": -7,
    "orbitals": [{"symbol": "X1-DF55-20251A"}, {"symbol": "X1-DF55-20252B"}],
    "faction": {"symbol": "COSMIC"},
    "traits": [
        {"symbol": "MARKETPLACE", "name": "Marketplace", "description": "A place to trade."},
        {"symbol": "SHIPYARD", "name": "Shipyard", "description": "A place to buy ships."}
    ],
    "chart": {"waypointSymbol": "X1-DF55-20250Z", "submittedBy": "COSMIC", "submittedOn": "2019-08-24T14:15:22Z"}
}"#;

#[test]
fn waypoint_decodes_field_by_field() {
    let w = Waypoint::from_json(&tree(WAYPOINT), "data").unwrap();
    assert_eq!(
        w,
        Waypoint {
            symbol: "X1-DF55-20250Z".to_string(),
            kind: WaypointType::Planet,
            system_symbol: "X1-DF55".to_string(),
            x: 12,
            y: -7,
            orbitals: vec![
                Symbolic { symbol: "X1-DF55-20251A".to_string() },
                Symbolic { symbol: "X1-DF55-20252B".to_string() },
            ],
            faction: Symbolic { symbol: "COSMIC".to_string() },
            traits: vec![
                TypedSymbolic {
                    symbol: WaypointTraitSymbol::Marketplace,
                    name: "Marketplace".to_string(),
                    description: "A place to trade.".to_string(),
                },
                TypedSymbolic {
                    symbol: WaypointTraitSymbol::Shipyard,
                    name: "Shipyard".to_string(),
                    description: "A place to buy ships.".to_string(),
                },
            ],
            chart: Some(Chart {
                waypoint_symbol: Some("X1-DF55-20250Z".to_string()),
                submitted_by: Some("COSMIC".to_string()),
                submitted_on: Some(Timestamp { seconds: 1566656122, nanos: 0 }),
            }),
        }
    );
}

#[test]
fn scenario_unknown_enum_variant() {
    let text = WAYPOINT.replace("\"PLANET\"", "\"WORMHOLE\"");
    assert_eq!(
        Waypoint::from_json(&tree(&text), "data"),
        Err(DecodeError::UnknownVariant { value: "WORMHOLE".to_string(), enum_name: "WaypointType".to_string() })
    );
    let reply = format!("{{\"data\": {}}}", text);
    assert_eq!(
        decode_api_response::<Waypoint>(&reply),
        Err(ApiError { message: "badReplyError".to_string(), code: 6000, data: None })
    );
}

#[test]
fn waypoint_inside_an_envelope() {
    let reply = format!("{{\"data\": {}}}", WAYPOINT);
    let w = decode_api_response::<Waypoint>(&reply).unwrap();
    assert_eq!(w.kind, WaypointType::Planet);
    assert_eq!(w.traits.len(), 2);
}

#[test]
fn the_wire_key_type_is_the_field_kind() {
    let j = tree(r#"{"symbol": "X1-A1", "type": "GAS_GIANT", "x": 1, "y": 2}"#);
    assert_eq!(
        SystemWaypoint::from_json(&j, "data"),
        Ok(SystemWaypoint { symbol: "X1-A1".to_string(), kind: WaypointType::GasGiant, x: 1, y: 2 })
    );
    let j = tree(r#"{"symbol": "X1-A1", "kind": "GAS_GIANT", "x": 1, "y": 2}"#);
    assert_eq!(SystemWaypoint::from_json(&j, "data"), Err(DecodeError::MissingField { name: "type".to_string() }));
}

#[test]
fn wire_keys_are_in_camel_case() {
    let j = tree(r#"{"accountId": "a1", "symbol": "S", "headquarters": "X1-A1", "credits": -20}"#);
    assert_eq!(
        Agent::from_json(&j, "data"),
        Ok(Agent { account_id: "a1".to_string(), symbol: "S".to_string(), headquarters: "X1-A1".to_string(), credits: -20 })
    );
    let j = tree(r#"{"account_id": "a1", "symbol": "S", "headquarters": "X1-A1", "credits": -20}"#);
    assert_eq!(Agent::from_json(&j, "data"), Err(DecodeError::MissingField { name: "accountId".to_string() }));
}

#[test]
fn a_missing_required_field_is_named() {
    let j = tree(r#"{"accountId": "a1", "symbol": "S", "credits": 5}"#);
    assert_eq!(Agent::from_json(&j, "data"), Err(DecodeError::MissingField { name: "headquarters".to_string() }));
}

#[test]
fn the_first_failing_field_is_reported() {
    let j = tree(r#"{"accountId": 1, "symbol": 2, "credits": "x"}"#);
    assert_eq!(
        Agent::from_json(&j, "data"),
        Err(DecodeError::TypeMismatch { field: "accountId".to_string(), expected: Shape::Text, got: JsonKind::Int })
    );
    let j = tree(r#"{"accountId": "a", "symbol": "s", "credits": "x"}"#);
    assert_eq!(Agent::from_json(&j, "data"), Err(DecodeError::MissingField { name: "headquarters".to_string() }));
}

#[test]
fn a_field_of_another_shape_is_a_mismatch() {
    let j = tree(r#"{"accountId": "a1", "symbol": "S", "headquarters": "X1-A1", "credits": "many"}"#);
    assert_eq!(
        Agent::from_json(&j, "data"),
        Err(DecodeError::TypeMismatch { field: "credits".to_string(), expected: Shape::I32, got: JsonKind::Str })
    );
    let j = tree(r#"{"accountId": "a1", "symbol": "S", "headquarters": null, "credits": 1}"#);
    assert_eq!(
        Agent::from_json(&j, "data"),
        Err(DecodeError::TypeMismatch { field: "headquarters".to_string(), expected: Shape::Text, got: JsonKind::Null })
    );
}

#[test]
fn a_record_must_be_an_object() {
    assert_eq!(
        Agent::from_json(&tree("[1, 2]"), "agent"),
        Err(DecodeError::TypeMismatch { field: "agent".to_string(), expected: Shape::Object, got: JsonKind::Array })
    );
    assert_eq!(
        Agent::from_json(&tree("\"agent\""), "agent"),
        Err(DecodeError::TypeMismatch { field: "agent".to_string(), expected: Shape::Object, got: JsonKind::Str })
    );
}

#[test]
fn integers_are_held_to_their_range() {
    assert_eq!(i32::from_json(&Json::Int(2147483647), "n"), Ok(2147483647));
    assert_eq!(i32::from_json(&Json::Int(-2147483648), "n"), Ok(-2147483648));
    assert_eq!(
        i32::from_json(&Json::Int(2147483648), "n"),
        Err(DecodeError::TypeMismatch { field: "n".to_string(), expected: Shape::I32, got: JsonKind::Int })
    );
    assert_eq!(
        i32::from_json(&Json::Int(-2147483649), "n"),
        Err(DecodeError::TypeMismatch { field: "n".to_string(), expected: Shape::I32, got: JsonKind::Int })
    );
    assert_eq!(u32::from_json(&Json::Int(4294967295), "n"), Ok(4294967295));
    assert_eq!(u32::from_json(&Json::Int(0), "n"), Ok(0));
    assert_eq!(
        u32::from_json(&Json::Int(-1), "n"),
        Err(DecodeError::TypeMismatch { field: "n".to_string(), expected: Shape::U32, got: JsonKind::Int })
    );
    assert_eq!(
        u32::from_json(&Json::Int(4294967296), "n"),
        Err(DecodeError::TypeMismatch { field: "n".to_string(), expected: Shape::U32, got: JsonKind::Int })
    );
    assert_eq!(u8::from_json(&Json::Int(255), "n"), Ok(255));
    assert_eq!(
        u8::from_json(&Json::Int(256), "n"),
        Err(DecodeError::TypeMismatch { field: "n".to_string(), expected: Shape::U8, got: JsonKind::Int })
    );
    assert_eq!(
        u8::from_json(&Json::Int(-1), "n"),
        Err(DecodeError::TypeMismatch { field: "n".to_string(), expected: Shape::U8, got: JsonKind::Int })
    );
}

#[test]
fn a_fraction_is_no_integer() {
    assert_eq!(
        i32::from_json(&tree("1.5"), "n"),
        Err(DecodeError::TypeMismatch { field: "n".to_string(), expected: Shape::I32, got: JsonKind::Fraction })
    );
    assert_eq!(
        i32::from_json(&tree("1.0"), "n"),
        Err(DecodeError::TypeMismatch { field: "n".to_string(), expected: Shape::I32, got: JsonKind::Fraction })
    );
}

#[test]
fn scalars_decode() {
    assert_eq!(bool::from_json(&Json::Bool(true), "b"), Ok(true));
    assert_eq!(
        bool::from_json(&Json::Int(1), "b"),
        Err(DecodeError::TypeMismatch { field: "b".to_string(), expected: Shape::Bool, got: JsonKind::Int })
    );
    assert_eq!(String::from_json(&Json::Str("x".to_string()), "s"), Ok("x".to_string()));
    assert_eq!(
        String::from_json(&Json::Bool(true), "s"),
        Err(DecodeError::TypeMismatch { field: "s".to_string(), expected: Shape::Text, got: JsonKind::Bool })
    );
}

#[test]
fn sequences_keep_the_wire_order() {
    assert_eq!(Vec::<i32>::from_json(&tree("[3, 1, 2]"), "v"), Ok(vec![3, 1, 2]));
    assert_eq!(
        Vec::<Vec<String>>::from_json(&tree(r#"[["b", "a"], [], ["c"]]"#), "v"),
        Ok(vec![vec!["b".to_string(), "a".to_string()], vec![], vec!["c".to_string()]])
    );
}

#[test]
fn an_empty_array_is_an_empty_sequence() {
    assert_eq!(Vec::<i32>::from_json(&tree("[]"), "v"), Ok(vec![]));
    let j = tree(r#"{"capacity": 40, "units": 0, "inventory": []}"#);
    assert_eq!(ShipCargo::from_json(&j, "cargo"), Ok(ShipCargo { capacity: 40, units: 0, inventory: vec![] }));
}

#[test]
fn a_sequence_must_be_an_array() {
    assert_eq!(
        Vec::<i32>::from_json(&Json::Null, "v"),
        Err(DecodeError::TypeMismatch { field: "v".to_string(), expected: Shape::Array, got: JsonKind::Null })
    );
    let j = tree(r#"{"capacity": 40, "units": 0, "inventory": null}"#);
    assert_eq!(
        ShipCargo::from_json(&j, "cargo"),
        Err(DecodeError::TypeMismatch { field: "inventory".to_string(), expected: Shape::Array, got: JsonKind::Null })
    );
    let j = tree(r#"{"capacity": 40, "units": 0}"#);
    assert_eq!(ShipCargo::from_json(&j, "cargo"), Err(DecodeError::MissingField { name: "inventory".to_string() }));
}

#[test]
fn the_first_failing_item_of_a_sequence_is_reported() {
    assert_eq!(
        Vec::<i32>::from_json(&tree(r#"[1, "two", null]"#), "v"),
        Err(DecodeError::TypeMismatch { field: "v".to_string(), expected: Shape::I32, got: JsonKind::Str })
    );
    assert_eq!(
        Vec::<WaypointType>::from_json(&tree(r#"["MOON", "SUN", "STAR"]"#), "v"),
        Err(DecodeError::UnknownVariant { value: "SUN".to_string(), enum_name: "WaypointType".to_string() })
    );
}

#[test]
fn optional_fields_may_be_absent_or_null() {
    assert_eq!(
        ShipRequirements::from_json(&tree("{}"), "requirements"),
        Ok(ShipRequirements { power: None, crew: None, slots: None })
    );
    assert_eq!(
        ShipRequirements::from_json(&tree(r#"{"power": null, "crew": 2}"#), "requirements"),
        Ok(ShipRequirements { power: None, crew: Some(2), slots: None })
    );
    assert_eq!(
        ShipRequirements::from_json(&tree(r#"{"power": "much"}"#), "requirements"),
        Err(DecodeError::TypeMismatch { field: "power".to_string(), expected: Shape::I32, got: JsonKind::Str })
    );
}

#[test]
fn an_optional_timestamp_may_be_absent_or_null() {
    assert_eq!(
        Chart::from_json(&tree("{}"), "chart"),
        Ok(Chart { waypoint_symbol: None, submitted_by: None, submitted_on: None })
    );
    assert_eq!(
        Chart::from_json(&tree(r#"{"submittedOn": null}"#), "chart"),
        Ok(Chart { waypoint_symbol: None, submitted_by: None, submitted_on: None })
    );
    assert_eq!(
        Chart::from_json(&tree(r#"{"submittedOn": "2023-05-13T21:45:36.828Z"}"#), "chart"),
        Ok(Chart {
            waypoint_symbol: None,
            submitted_by: None,
            submitted_on: Some(Timestamp { seconds: 1684014336, nanos: 828_000_000 }),
        })
    );
    assert_eq!(
        Chart::from_json(&tree(r#"{"submittedOn": "last week"}"#), "chart"),
        Err(DecodeError::InvalidTimestamp { field: "submittedOn".to_string(), value: "last week".to_string() })
    );
}

#[test]
fn an_optional_sequence_is_absent_or_a_sequence() {
    let base = r#"{"symbol": "MOUNT_MINING_LASER_I", "name": "Laser", "requirements": {}"#;
    let none = ShipMount::from_json(&tree(&format!("{}}}", base)), "mount").unwrap();
    assert_eq!(none.deposits, None);
    assert_eq!(none.symbol, ShipMountSymbols::MountMiningLaserI);
    let empty = ShipMount::from_json(&tree(&format!("{}, \"deposits\": []}}", base)), "mount").unwrap();
    assert_eq!(empty.deposits, Some(vec![]));
    let some = ShipMount::from_json(&tree(&format!("{}, \"deposits\": [\"IRON_ORE\", \"DIAMONDS\"]}}", base)), "mount").unwrap();
    assert_eq!(some.deposits, Some(vec![Deposits::IronOre, Deposits::Diamonds]));
}

#[test]
fn unknown_extra_keys_are_ignored() {
    let j = tree(r#"{"symbol": "COSMIC", "colour": "blue", "nested": {"a": [1, 2]}}"#);
    assert_eq!(Symbolic::from_json(&j, "faction"), Ok(Symbolic { symbol: "COSMIC".to_string() }));
}

#[test]
fn nested_failures_come_up_unchanged() {
    let text = r#"{
        "id": "c1", "factionSymbol": "COSMIC", "type": "PROCUREMENT",
        "terms": {
            "deadline": "2023-05-20T00:00:00Z",
            "payment": {"onAccepted": 100, "onFulfilled": 900},
            "deliver": [{"tradeSymbol": "IRON_ORE", "destinationSymbol": "X1-A1", "unitsRequired": 10}]
        },
        "accepted": false, "fulfilled": false, "expiration": "2023-05-16T00:00:00Z"
    }"#;
    assert_eq!(
        Contract::from_json(&tree(text), "data"),
        Err(DecodeError::MissingField { name: "unitsFulfilled".to_string() })
    );
}

#[test]
fn contract_decodes_with_its_terms() {
    let text = r#"{
        "id": "c1", "factionSymbol": "COSMIC", "type": "PROCUREMENT",
        "terms": {
            "deadline": "2023-05-20T00:00:00Z",
            "payment": {"onAccepted": 100, "onFulfilled": 900},
            "deliver": [{"tradeSymbol": "IRON_ORE", "destinationSymbol": "X1-A1", "unitsRequired": 10, "unitsFulfilled": 3}]
        },
        "accepted": true, "fulfilled": false, "expiration": "2023-05-16T00:00:00Z"
    }"#;
    assert_eq!(
        Contract::from_json(&tree(text), "data"),
        Ok(Contract {
            id: "c1".to_string(),
            faction_symbol: "COSMIC".to_string(),
            kind: ContractType::Procurement,
            terms: ContractTerms {
                deadline: Timestamp { seconds: 1684540800, nanos: 0 },
                payment: ContractPayment { on_accepted: 100, on_fulfilled: 900 },
                deliver: vec![ContractDeliverGood {
                    trade_symbol: "IRON_ORE".to_string(),
                    destination_symbol: "X1-A1".to_string(),
                    units_required: 10,
                    units_fulfilled: 3,
                }],
            },
            accepted: true,
            fulfilled: false,
            expiration: Timestamp { seconds: 1684195200, nanos: 0 },
        })
    );
}

#[test]
fn a_required_timestamp_must_be_well_formed() {
    let j = tree(r#"{"shipSymbol": "S-1", "totalSeconds": 60, "remainingSeconds": 59, "expiration": "soon"}"#);
    assert_eq!(
        Cooldown::from_json(&j, "cooldown"),
        Err(DecodeError::InvalidTimestamp { field: "expiration".to_string(), value: "soon".to_string() })
    );
    let j = tree(r#"{"shipSymbol": "S-1", "totalSeconds": 60, "remainingSeconds": 59}"#);
    assert_eq!(Cooldown::from_json(&j, "cooldown"), Err(DecodeError::MissingField { name: "expiration".to_string() }));
    let j = tree(r#"{"shipSymbol": "S-1", "totalSeconds": 60, "remainingSeconds": 59, "expiration": "2023-05-16T00:00:00Z"}"#);
    assert_eq!(
        Cooldown::from_json(&j, "cooldown"),
        Ok(Cooldown {
            ship_symbol: "S-1".to_string(),
            total_seconds: 60,
            remaining_seconds: 59,
            expiration: Timestamp { seconds: 1684195200, nanos: 0 },
        })
    );
}

#[test]
fn faction_decodes_its_traits() {
    let j = tree(r#"{
        "symbol": "COSMIC", "name": "Cosmic Engineers", "description": "d", "headquarters": "X1-A1",
        "traits": [{"symbol": "INNOVATIVE", "name": "Innovative", "description": "i"}]
    }"#);
    let f = Faction::from_json(&j, "data").unwrap();
    assert_eq!(f.traits, vec![TypedSymbolic {
        symbol: FactionTraitSymbols::Innovative,
        name: "Innovative".to_string(),
        description: "i".to_string(),
    }]);
}

#[test]
fn crew_and_fuel_decode() {
    let j = tree(r#"{"current": 5, "required": 4, "capacity": 10, "rotation": "STRICT", "morale": 100, "wages": 0}"#);
    assert_eq!(
        ShipCrew::from_json(&j, "crew"),
        Ok(ShipCrew { current: 5, required: 4, capacity: 10, rotation: ShipCrewRotation::Strict, morale: 100, wages: 0 })
    );
    let j = tree(r#"{"current": 90, "capacity": 100, "consumed": {"amount": 10, "timestamp": "2023-05-16T00:00:00Z"}}"#);
    assert_eq!(
        ShipFuel::from_json(&j, "fuel"),
        Ok(ShipFuel {
            current: 90,
            capacity: 100,
            consumed: Some(ShipFuelConsumption { amount: 10, timestamp: Timestamp { seconds: 1684195200, nanos: 0 } }),
        })
    );
}

#[test]
fn system_and_survey_decode() {
    let j = tree(r#"{
        "symbol": "X1-A", "sectorSymbol": "X1", "type": "RED_STAR", "x": 0, "y": 5,
        "waypoints": [{"symbol": "X1-A-1", "type": "MOON", "x": 1, "y": 1}],
        "factions": [{"symbol": "COSMIC"}]
    }"#);
    let s = System::from_json(&j, "data").unwrap();
    assert_eq!(s.kind, SystemType::RedStar);
    assert_eq!(s.waypoints, vec![SystemWaypoint { symbol: "X1-A-1".to_string(), kind: WaypointType::Moon, x: 1, y: 1 }]);
    assert_eq!(s.factions, vec![Symbolic { symbol: "COSMIC".to_string() }]);
    let j = tree(r#"{"signature": "sig", "symbol": "X1-A-1", "deposits": [{"symbol": "IRON_ORE"}]}"#);
    assert_eq!(
        Survey::from_json(&j, "survey"),
        Ok(Survey { signature: "sig".to_string(), symbol: "X1-A-1".to_string(), deposits: vec![Symbolic { symbol: "IRON_ORE".to_string() }] })
    );
}

#[test]
fn required_field_and_optional_field_read_one_key() {
    let j = tree(r#"{"a": 1, "b": null}"#);
    assert_eq!(required_field::<i32>(&j, "a"), Ok(1));
    assert_eq!(required_field::<i32>(&j, "c"), Err(DecodeError::MissingField { name: "c".to_string() }));
    assert_eq!(
        required_field::<i32>(&j, "b"),
        Err(DecodeError::TypeMismatch { field: "b".to_string(), expected: Shape::I32, got: JsonKind::Null })
    );
    assert_eq!(optional_field::<i32>(&j, "a"), Ok(Some(1)));
    assert_eq!(optional_field::<i32>(&j, "b"), Ok(None));
    assert_eq!(optional_field::<i32>(&j, "c"), Ok(None));
}

#[test]
fn a_tree_that_is_no_object_has_no_keys() {
    for j in [Json::Null, Json::Int(1), Json::Str("a".to_string()), Json::Array(vec![Json::Int(1)])] {
        assert_eq!(required_field::<i32>(&j, "a"), Err(DecodeError::MissingField { name: "a".to_string() }));
        assert_eq!(optional_field::<i32>(&j, "a"), Ok(None));
    }
}

#[test]
fn reply_shapes_decode() {
    let cooldown = decode_api_response::<GetShipCooldown>(
        r#"{"data": {"shipSymbol": "S-1", "totalSeconds": 60, "remainingSeconds": 59, "expiration": "2023-05-16T00:00:00Z"}}"#,
    )
    .unwrap();
    assert_eq!(cooldown.unwrap().remaining_seconds, 59);
    let refine = ShipRefine::from_json(
        &tree(r#"{
            "cargo": {"capacity": 40, "units": 1, "inventory": [{"symbol": "IRON", "name": "Iron", "description": "d", "units": 1}]},
            "cooldown": {"shipSymbol": "S-1", "totalSeconds": 60, "remainingSeconds": 59, "expiration": "2023-05-16T00:00:00Z"},
            "produced": {"tradeSymbol": "IRON", "units": 1},
            "consumed": {"tradeSymbol": "IRON_ORE", "units": 30}
        }"#),
        "data",
    )
    .unwrap();
    assert_eq!(refine.produced.units, 1);
    assert_eq!(refine.consumed.trade_symbol, "IRON_ORE");
    assert_eq!(refine.cargo.inventory.len(), 1);
    assert_eq!(
        NavigateShip::from_json(&tree(r#"{"fuel": {"current": 1, "capacity": 2}}"#), "data"),
        Err(DecodeError::MissingField { name: "nav".to_string() })
    );
}
