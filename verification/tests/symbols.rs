use space_traders::api::decode_api_response;
use space_traders::decode::{decode_symbol, symbol_from_json, DecodeError, FromJson, JsonKind, Shape, Symbol};
use space_traders::json::Json;
use space_traders::schemas::{ContractType, Deposits, FactionTraitSymbols, MarketTransactionTypes, ShipCrewRotation, ShipEngineSymbols, ShipFrameSymbols, ShipModuleSymbols, ShipMountSymbols, ShipNavFlightMode, ShipNavStatus, ShipReactorSymbols, ShipRole, ShipType, SystemType, TradeSymbol, WaypointTraitSymbol, WaypointType};

#[test]
fn contract_type_round_trips() {
    let table = [
        (ContractType::Procurement, "PROCUREMENT"),
        (ContractType::Transport, "TRANSPORT"),
        (ContractType::Shuttle, "SHUTTLE"),
    ];
    assert_eq!(table.len(), 3);
    for (variant, text) in table {
        assert_eq!(variant.encode(), text);
        assert_eq!(ContractType::variant(text), Some(variant));
        assert_eq!(decode_symbol::<ContractType>(variant.encode()), Ok(variant));
        assert_eq!(ContractType::from_json(&Json::Str(text.to_string()), "symbol"), Ok(variant));
        assert_eq!(decode_api_response::<ContractType>(&format!("{{\"data\":\"{}\"}}", text)), Ok(variant));
    }
    assert_eq!(ContractType::family_name(), "ContractType");
}

#[test]
fn faction_trait_symbols_round_trips() {
    let table = [
        (FactionTraitSymbols::Bureaucratic, "BUREAUCRATIC"),
        (FactionTraitSymbols::Secretive, "SECRETIVE"),
        (FactionTraitSymbols::Capitalistic, "CAPITALISTIC"),
        (FactionTraitSymbols::Industrious, "INDUSTRIOUS"),
        (FactionTraitSymbols::Peaceful, "PEACEFUL"),
        (FactionTraitSymbols::Distrustful, "DISTRUSTFUL"),
        (FactionTraitSymbols::Welcoming, "WELCOMING"),
        (FactionTraitSymbols::Smugglers, "SMUGGLERS"),
        (FactionTraitSymbols::Scavengers, "SCAVENGERS"),
        (FactionTraitSymbols::Rebellious, "REBELLIOUS"),
        (FactionTraitSymbols::Exiles, "EXILES"),
        (FactionTraitSymbols::Pirates, "PIRATES"),
        (FactionTraitSymbols::Raiders, "RAIDERS"),
        (FactionTraitSymbols::Clan, "CLAN"),
        (FactionTraitSymbols::Guild, "GUILD"),
        (FactionTraitSymbols::Dominion, "DOMINION"),
        (FactionTraitSymbols::Fringe, "FRINGE"),
        (FactionTraitSymbols::Forsaken, "FORSAKEN"),
        (FactionTraitSymbols::Isolated, "ISOLATED"),
        (FactionTraitSymbols::Localized, "LOCALIZED"),
        (FactionTraitSymbols::Established, "ESTABLISHED"),
        (FactionTraitSymbols::Notable, "NOTABLE"),
        (FactionTraitSymbols::Dominant, "DOMINANT"),
        (FactionTraitSymbols::Inescapable, "INESCAPABLE"),
        (FactionTraitSymbols::Innovative, "INNOVATIVE"),
        (FactionTraitSymbols::Bold, "BOLD"),
        (FactionTraitSymbols::Visionary, "VISIONARY"),
        (FactionTraitSymbols::Curious, "CURIOUS"),
        (FactionTraitSymbols::Daring, "DARING"),
        (FactionTraitSymbols::Exploratory, "EXPLORATORY"),
        (FactionTraitSymbols::Resourceful, "RESOURCEFUL"),
        (FactionTraitSymbols::Flexible, "FLEXIBLE"),
        (FactionTraitSymbols::Cooperative, "COOPERATIVE"),
        (FactionTraitSymbols::United, "UNITED"),
        (FactionTraitSymbols::Strategic, "STRATEGIC"),
        (FactionTraitSymbols::Intelligent, "INTELLIGENT"),
        (FactionTraitSymbols::ResearchFocused, "RESEARCH_FOCUSED"),
        (FactionTraitSymbols::Collaborative, "COLLABORATIVE"),
        (FactionTraitSymbols::Progressive, "PROGRESSIVE"),
        (FactionTraitSymbols::Militaristic, "MILITARISTIC"),
        (FactionTraitSymbols::TechnologicallyAdvanced, "TECHNOLOGICALLY_ADVANCED"),
        (FactionTraitSymbols::Aggressive, "AGGRESSIVE"),
        (FactionTraitSymbols::Imperialistic, "IMPERIALISTIC"),
        (FactionTraitSymbols::TreasureHunters, "TREASURE_HUNTERS"),
        (FactionTraitSymbols::Dexterous, "DEXTEROUS"),
        (FactionTraitSymbols::Unpredictable, "UNPREDICTABLE"),
        (FactionTraitSymbols::Brutal, "BRUTAL"),
        (FactionTraitSymbols::Fleeting, "FLEETING"),
        (FactionTraitSymbols::Adaptable, "ADAPTABLE"),
        (FactionTraitSymbols::SelfSufficient, "SELF_SUFFICIENT"),
        (FactionTraitSymbols::Defensive, "DEFENSIVE"),
        (FactionTraitSymbols::Proud, "PROUD"),
        (FactionTraitSymbols::Diverse, "DIVERSE"),
        (FactionTraitSymbols::Independent, "INDEPENDENT"),
        (FactionTraitSymbols::SelfInterested, "SELF_INTERESTED"),
        (FactionTraitSymbols::Fragmented, "FRAGMENTED"),
        (FactionTraitSymbols::Commercial, "COMMERCIAL"),
        (FactionTraitSymbols::FreeMarkets, "FREE_MARKETS"),
        (FactionTraitSymbols::Entrepreneurial, "ENTREPRENEURIAL"),
    ];
    assert_eq!(table.len(), 59);
    for (variant, text) in table {
        assert_eq!(variant.encode(), text);
        assert_eq!(FactionTraitSymbols::variant(text), Some(variant));
        assert_eq!(decode_symbol::<FactionTraitSymbols>(variant.encode()), Ok(variant));
        assert_eq!(FactionTraitSymbols::from_json(&Json::Str(text.to_string()), "symbol"), Ok(variant));
        assert_eq!(decode_api_response::<FactionTraitSymbols>(&format!("{{\"data\":\"{}\"}}", text)), Ok(variant));
    }
    assert_eq!(FactionTraitSymbols::family_name(), "FactionTraitSymbols");
}

#[test]
fn market_transaction_types_round_trips() {
    let table = [
        (MarketTransactionTypes::Purchase, "PURCHASE"),
        (MarketTransactionTypes::Sell, "SELL"),
    ];
    assert_eq!(table.len(), 2);
    for (variant, text) in table {
        assert_eq!(variant.encode(), text);
        assert_eq!(MarketTransactionTypes::variant(text), Some(variant));
        assert_eq!(decode_symbol::<MarketTransactionTypes>(variant.encode()), Ok(variant));
        assert_eq!(MarketTransactionTypes::from_json(&Json::Str(text.to_string()), "symbol"), Ok(variant));
        assert_eq!(decode_api_response::<MarketTransactionTypes>(&format!("{{\"data\":\"{}\"}}", text)), Ok(variant));
    }
    assert_eq!(MarketTransactionTypes::family_name(), "MarketTransactionTypes");
}

#[test]
fn ship_crew_rotation_round_trips() {
    let table = [
        (ShipCrewRotation::Strict, "STRICT"),
        (ShipCrewRotation::Relaxed, "RELAXED"),
    ];
    assert_eq!(table.len(), 2);
    for (variant, text) in table {
        assert_eq!(variant.encode(), text);
        assert_eq!(ShipCrewRotation::variant(text), Some(variant));
        assert_eq!(decode_symbol::<ShipCrewRotation>(variant.encode()), Ok(variant));
        assert_eq!(ShipCrewRotation::from_json(&Json::Str(text.to_string()), "symbol"), Ok(variant));
        assert_eq!(decode_api_response::<ShipCrewRotation>(&format!("{{\"data\":\"{}\"}}", text)), Ok(variant));
    }
    assert_eq!(ShipCrewRotation::family_name(), "ShipCrewRotation");
}

#[test]
fn ship_engine_symbols_round_trips() {
    let table = [
        (ShipEngineSymbols::EngineImpulseDriveI, "ENGINE_IMPULSE_DRIVE_I"),
        (ShipEngineSymbols::EngineIonDriveI, "ENGINE_ION_DRIVE_I"),
        (ShipEngineSymbols::EngineIonDriveIi, "ENGINE_ION_DRIVE_II"),
        (ShipEngineSymbols::EngineHyperDriveI, "ENGINE_HYPER_DRIVE_I"),
    ];
    assert_eq!(table.len(), 4);
    for (variant, text) in table {
        assert_eq!(variant.encode(), text);
        assert_eq!(ShipEngineSymbols::variant(text), Some(variant));
        assert_eq!(decode_symbol::<ShipEngineSymbols>(variant.encode()), Ok(variant));
        assert_eq!(ShipEngineSymbols::from_json(&Json::Str(text.to_string()), "symbol"), Ok(variant));
        assert_eq!(decode_api_response::<ShipEngineSymbols>(&format!("{{\"data\":\"{}\"}}", text)), Ok(variant));
    }
    assert_eq!(ShipEngineSymbols::family_name(), "ShipEngineSymbols");
}

#[test]
fn ship_frame_symbols_round_trips() {
    let table = [
        (ShipFrameSymbols::FrameProbe, "FRAME_PROBE"),
        (ShipFrameSymbols::FrameDrone, "FRAME_DRONE"),
        (ShipFrameSymbols::FrameInterceptor, "FRAME_INTERCEPTOR"),
        (ShipFrameSymbols::FrameRacer, "FRAME_RACER"),
        (ShipFrameSymbols::FrameFighter, "FRAME_FIGHTER"),
        (ShipFrameSymbols::FrameFrigate, "FRAME_FRIGATE"),
        (ShipFrameSymbols::FrameShuttle, "FRAME_SHUTTLE"),
        (ShipFrameSymbols::FrameExplorer, "FRAME_EXPLORER"),
        (ShipFrameSymbols::FrameMiner, "FRAME_MINER"),
        (ShipFrameSymbols::FrameLightFreighter, "FRAME_LIGHT_FREIGHTER"),
        (ShipFrameSymbols::FrameHeavyFreighter, "FRAME_HEAVY_FREIGHTER"),
        (ShipFrameSymbols::FrameTransport, "FRAME_TRANSPORT"),
        (ShipFrameSymbols::FrameDestroyer, "FRAME_DESTROYER"),
        (ShipFrameSymbols::FrameCruiser, "FRAME_CRUISER"),
        (ShipFrameSymbols::FrameCarrier, "FRAME_CARRIER"),
    ];
    assert_eq!(table.len(), 15);
    for (variant, text) in table {
        assert_eq!(variant.encode(), text);
        assert_eq!(ShipFrameSymbols::variant(text), Some(variant));
        assert_eq!(decode_symbol::<ShipFrameSymbols>(variant.encode()), Ok(variant));
        assert_eq!(ShipFrameSymbols::from_json(&Json::Str(text.to_string()), "symbol"), Ok(variant));
        assert_eq!(decode_api_response::<ShipFrameSymbols>(&format!("{{\"data\":\"{}\"}}", text)), Ok(variant));
    }
    assert_eq!(ShipFrameSymbols::family_name(), "ShipFrameSymbols");
}

#[test]
fn ship_module_symbols_round_trips() {
    let table = [
        (ShipModuleSymbols::ModuleMineralProcessorI, "MODULE_MINERAL_PROCESSOR_I"),
        (ShipModuleSymbols::ModuleCargoHoldI, "MODULE_CARGO_HOLD_I"),
        (ShipModuleSymbols::ModuleCrewQuartersI, "MODULE_CREW_QUARTERS_I"),
        (ShipModuleSymbols::ModuleEnvoyQuartersI, "MODULE_ENVOY_QUARTERS_I"),
        (ShipModuleSymbols::ModulePassengerCabinI, "MODULE_PASSENGER_CABIN_I"),
        (ShipModuleSymbols::ModuleMicroRefineryI, "MODULE_MICRO_REFINERY_I"),
        (ShipModuleSymbols::ModuleOreRefineryI, "MODULE_ORE_REFINERY_I"),
        (ShipModuleSymbols::ModuleFuelRefineryI, "MODULE_FUEL_REFINERY_I"),
        (ShipModuleSymbols::ModuleScienceLabI, "MODULE_SCIENCE_LAB_I"),
        (ShipModuleSymbols::ModuleJumpDriveI, "MODULE_JUMP_DRIVE_I"),
        (ShipModuleSymbols::ModuleJumpDriveIi, "MODULE_JUMP_DRIVE_II"),
        (ShipModuleSymbols::ModuleJumpDriveIii, "MODULE_JUMP_DRIVE_III"),
        (ShipModuleSymbols::ModuleWarpDriveI, "MODULE_WARP_DRIVE_I"),
        (ShipModuleSymbols::ModuleWarpDriveIi, "MODULE_WARP_DRIVE_II"),
        (ShipModuleSymbols::ModuleWarpDriveIii, "MODULE_WARP_DRIVE_III"),
        (ShipModuleSymbols::ModuleShieldGeneratorI, "MODULE_SHIELD_GENERATOR_I"),
        (ShipModuleSymbols::ModuleShieldGeneratorIi, "MODULE_SHIELD_GENERATOR_II"),
    ];
    assert_eq!(table.len(), 17);
    for (variant, text) in table {
        assert_eq!(variant.encode(), text);
        assert_eq!(ShipModuleSymbols::variant(text), Some(variant));
        assert_eq!(decode_symbol::<ShipModuleSymbols>(variant.encode()), Ok(variant));
        assert_eq!(ShipModuleSymbols::from_json(&Json::Str(text.to_string()), "symbol"), Ok(variant));
        assert_eq!(decode_api_response::<ShipModuleSymbols>(&format!("{{\"data\":\"{}\"}}", text)), Ok(variant));
    }
    assert_eq!(ShipModuleSymbols::family_name(), "ShipModuleSymbols");
}

#[test]
fn ship_mount_symbols_round_trips() {
    let table = [
        (ShipMountSymbols::MountGasSiphonI, "MOUNT_GAS_SIPHON_I"),
        (ShipMountSymbols::MountGasSiphonIi, "MOUNT_GAS_SIPHON_II"),
        (ShipMountSymbols::MountGasSiphonIii, "MOUNT_GAS_SIPHON_III"),
        (ShipMountSymbols::MountSurveyorI, "MOUNT_SURVEYOR_I"),
        (ShipMountSymbols::MountSurveyorIi, "MOUNT_SURVEYOR_II"),
        (ShipMountSymbols::MountSurveyorIii, "MOUNT_SURVEYOR_III"),
        (ShipMountSymbols::MountSensorArrayI, "MOUNT_SENSOR_ARRAY_I"),
        (ShipMountSymbols::MountSensorArrayIi, "MOUNT_SENSOR_ARRAY_II"),
        (ShipMountSymbols::MountSensorArrayIii, "MOUNT_SENSOR_ARRAY_III"),
        (ShipMountSymbols::MountMiningLaserI, "MOUNT_MINING_LASER_I"),
        (ShipMountSymbols::MountMiningLaserIi, "MOUNT_MINING_LASER_II"),
        (ShipMountSymbols::MountMiningLaserIii, "MOUNT_MINING_LASER_III"),
        (ShipMountSymbols::MountLaserCannonI, "MOUNT_LASER_CANNON_I"),
        (ShipMountSymbols::MountMissileLauncherI, "MOUNT_MISSILE_LAUNCHER_I"),
        (ShipMountSymbols::MountTurretI, "MOUNT_TURRET_I"),
    ];
    assert_eq!(table.len(), 15);
    for (variant, text) in table {
        assert_eq!(variant.encode(), text);
        assert_eq!(ShipMountSymbols::variant(text), Some(variant));
        assert_eq!(decode_symbol::<ShipMountSymbols>(variant.encode()), Ok(variant));
        assert_eq!(ShipMountSymbols::from_json(&Json::Str(text.to_string()), "symbol"), Ok(variant));
        assert_eq!(decode_api_response::<ShipMountSymbols>(&format!("{{\"data\":\"{}\"}}", text)), Ok(variant));
    }
    assert_eq!(ShipMountSymbols::family_name(), "ShipMountSymbols");
}

#[test]
fn ship_nav_flight_mode_round_trips() {
    let table = [
        (ShipNavFlightMode::Drift, "DRIFT"),
        (ShipNavFlightMode::Stealth, "STEALTH"),
        (ShipNavFlightMode::Cruise, "CRUISE"),
        (ShipNavFlightMode::Burn, "BURN"),
    ];
    assert_eq!(table.len(), 4);
    for (variant, text) in table {
        assert_eq!(variant.encode(), text);
        assert_eq!(ShipNavFlightMode::variant(text), Some(variant));
        assert_eq!(decode_symbol::<ShipNavFlightMode>(variant.encode()), Ok(variant));
        assert_eq!(ShipNavFlightMode::from_json(&Json::Str(text.to_string()), "symbol"), Ok(variant));
        assert_eq!(decode_api_response::<ShipNavFlightMode>(&format!("{{\"data\":\"{}\"}}", text)), Ok(variant));
    }
    assert_eq!(ShipNavFlightMode::family_name(), "ShipNavFlightMode");
}

#[test]
fn ship_nav_status_round_trips() {
    let table = [
        (ShipNavStatus::InTransit, "IN_TRANSIT"),
        (ShipNavStatus::InOrbit, "IN_ORBIT"),
        (ShipNavStatus::Docked, "DOCKED"),
    ];
    assert_eq!(table.len(), 3);
    for (variant, text) in table {
        assert_eq!(variant.encode(), text);
        assert_eq!(ShipNavStatus::variant(text), Some(variant));
        assert_eq!(decode_symbol::<ShipNavStatus>(variant.encode()), Ok(variant));
        assert_eq!(ShipNavStatus::from_json(&Json::Str(text.to_string()), "symbol"), Ok(variant));
        assert_eq!(decode_api_response::<ShipNavStatus>(&format!("{{\"data\":\"{}\"}}", text)), Ok(variant));
    }
    assert_eq!(ShipNavStatus::family_name(), "ShipNavStatus");
}

#[test]
fn ship_reactor_symbols_round_trips() {
    let table = [
        (ShipReactorSymbols::ReactorSolarI, "REACTOR_SOLAR_I"),
        (ShipReactorSymbols::ReactorFusionI, "REACTOR_FUSION_I"),
        (ShipReactorSymbols::ReactorFissionI, "REACTOR_FISSION_I"),
        (ShipReactorSymbols::ReactorChemicalI, "REACTOR_CHEMICAL_I"),
        (ShipReactorSymbols::ReactorAntimatterI, "REACTOR_ANTIMATTER_I"),
    ];
    assert_eq!(table.len(), 5);
    for (variant, text) in table {
        assert_eq!(variant.encode(), text);
        assert_eq!(ShipReactorSymbols::variant(text), Some(variant));
        assert_eq!(decode_symbol::<ShipReactorSymbols>(variant.encode()), Ok(variant));
        assert_eq!(ShipReactorSymbols::from_json(&Json::Str(text.to_string()), "symbol"), Ok(variant));
        assert_eq!(decode_api_response::<ShipReactorSymbols>(&format!("{{\"data\":\"{}\"}}", text)), Ok(variant));
    }
    assert_eq!(ShipReactorSymbols::family_name(), "ShipReactorSymbols");
}

#[test]
fn ship_role_round_trips() {
    let table = [
        (ShipRole::Fabricator, "FABRICATOR"),
        (ShipRole::Harvester, "HARVESTER"),
        (ShipRole::Hauler, "HAULER"),
        (ShipRole::Interceptor, "INTERCEPTOR"),
        (ShipRole::Excavator, "EXCAVATOR"),
        (ShipRole::Transport, "TRANSPORT"),
        (ShipRole::Repair, "REPAIR"),
        (ShipRole::Surveyor, "SURVEYOR"),
        (ShipRole::Command, "COMMAND"),
        (ShipRole::Carrier, "CARRIER"),
        (ShipRole::Patrol, "PATROL"),
        (ShipRole::Satellite, "SATELLITE"),
        (ShipRole::Explorer, "EXPLORER"),
        (ShipRole::Refinery, "REFINERY"),
    ];
    assert_eq!(table.len(), 14);
    for (variant, text) in table {
        assert_eq!(variant.encode(), text);
        assert_eq!(ShipRole::variant(text), Some(variant));
        assert_eq!(decode_symbol::<ShipRole>(variant.encode()), Ok(variant));
        assert_eq!(ShipRole::from_json(&Json::Str(text.to_string()), "symbol"), Ok(variant));
        assert_eq!(decode_api_response::<ShipRole>(&format!("{{\"data\":\"{}\"}}", text)), Ok(variant));
    }
    assert_eq!(ShipRole::family_name(), "ShipRole");
}

#[test]
fn ship_type_round_trips() {
    let table = [
        (ShipType::ShipProbe, "SHIP_PROBE"),
        (ShipType::ShipMiningDrone, "SHIP_MINING_DRONE"),
        (ShipType::ShipInterceptor, "SHIP_INTERCEPTOR"),
        (ShipType::ShipLightHauler, "SHIP_LIGHT_HAULER"),
        (ShipType::ShipCommandFrigate, "SHIP_COMMAND_FRIGATE"),
        (ShipType::ShipExplorer, "SHIP_EXPLORER"),
        (ShipType::ShipHeavyFreighter, "SHIP_HEAVY_FREIGHTER"),
        (ShipType::ShipLightShuttle, "SHIP_LIGHT_SHUTTLE"),
        (ShipType::ShipOreHound, "SHIP_ORE_HOUND"),
        (ShipType::ShipRefiningFreighter, "SHIP_REFINING_FREIGHTER"),
    ];
    assert_eq!(table.len(), 10);
    for (variant, text) in table {
        assert_eq!(variant.encode(), text);
        assert_eq!(ShipType::variant(text), Some(variant));
        assert_eq!(decode_symbol::<ShipType>(variant.encode()), Ok(variant));
        assert_eq!(ShipType::from_json(&Json::Str(text.to_string()), "symbol"), Ok(variant));
        assert_eq!(decode_api_response::<ShipType>(&format!("{{\"data\":\"{}\"}}", text)), Ok(variant));
    }
    assert_eq!(ShipType::family_name(), "ShipType");
}

#[test]
fn system_type_round_trips() {
    let table = [
        (SystemType::NeutronStar, "NEUTRON_STAR"),
        (SystemType::RedStar, "RED_STAR"),
        (SystemType::OrangeStar, "ORANGE_STAR"),
        (SystemType::BlueStar, "BLUE_STAR"),
        (SystemType::YoungStar, "YOUNG_STAR"),
        (SystemType::WhiteDwarf, "WHITE_DWARF"),
        (SystemType::BlackHole, "BLACK_HOLE"),
        (SystemType::Hypergiant, "HYPERGIANT"),
        (SystemType::Nebula, "NEBULA"),
        (SystemType::Unstable, "UNSTABLE"),
    ];
    assert_eq!(table.len(), 10);
    for (variant, text) in table {
        assert_eq!(variant.encode(), text);
        assert_eq!(SystemType::variant(text), Some(variant));
        assert_eq!(decode_symbol::<SystemType>(variant.encode()), Ok(variant));
        assert_eq!(SystemType::from_json(&Json::Str(text.to_string()), "symbol"), Ok(variant));
        assert_eq!(decode_api_response::<SystemType>(&format!("{{\"data\":\"{}\"}}", text)), Ok(variant));
    }
    assert_eq!(SystemType::family_name(), "SystemType");
}

#[test]
fn trade_symbol_round_trips() {
    let table = [
        (TradeSymbol::PreciousStones, "PRECIOUS_STONES"),
        (TradeSymbol::QuartzSand, "QUARTZ_SAND"),
        (TradeSymbol::SiliconCrystals, "SILICON_CRYSTALS"),
        (TradeSymbol::AmmoniaIce, "AMMONIA_ICE"),
        (TradeSymbol::LiquidHydrogen, "LIQUID_HYDROGEN"),
        (TradeSymbol::LiquidNitrogen, "LIQUID_NITROGEN"),
        (TradeSymbol::IceWater, "ICE_WATER"),
        (TradeSymbol::ExoticMatter, "EXOTIC_MATTER"),
        (TradeSymbol::AdvancedCircuitry, "ADVANCED_CIRCUITRY"),
        (TradeSymbol::GravitonEmitters, "GRAVITON_EMITTERS"),
        (TradeSymbol::Iron, "IRON"),
        (TradeSymbol::IronOre, "IRON_ORE"),
        (TradeSymbol::Copper, "COPPER"),
        (TradeSymbol::CopperOre, "COPPER_ORE"),
        (TradeSymbol::Aluminum, "ALUMINUM"),
        (TradeSymbol::AluminumOre, "ALUMINUM_ORE"),
        (TradeSymbol::Silver, "SILVER"),
        (TradeSymbol::SilverOre, "SILVER_ORE"),
        (TradeSymbol::Gold, "GOLD"),
        (TradeSymbol::GoldOre, "GOLD_ORE"),
        (TradeSymbol::Platinum, "PLATINUM"),
        (TradeSymbol::PlatinumOre, "PLATINUM_ORE"),
        (TradeSymbol::Diamonds, "DIAMONDS"),
        (TradeSymbol::Uranite, "URANITE"),
        (TradeSymbol::UraniteOre, "URANITE_ORE"),
        (TradeSymbol::Meritium, "MERITIUM"),
        (TradeSymbol::MeritiumOre, "MERITIUM_ORE"),
        (TradeSymbol::Hydrocarbon, "HYDROCARBON"),
        (TradeSymbol::Antimatter, "ANTIMATTER"),
        (TradeSymbol::Fertilizers, "FERTILIZERS"),
        (TradeSymbol::Fabrics, "FABRICS"),
        (TradeSymbol::Food, "FOOD"),
        (TradeSymbol::Jewelry, "JEWELRY"),
        (TradeSymbol::Machinery, "MACHINERY"),
        (TradeSymbol::Firearms, "FIREARMS"),
        (TradeSymbol::AssaultRifles, "ASSAULT_RIFLES"),
        (TradeSymbol::MilitaryEquipment, "MILITARY_EQUIPMENT"),
        (TradeSymbol::Explosives, "EXPLOSIVES"),
        (TradeSymbol::LabInstruments, "LAB_INSTRUMENTS"),
        (TradeSymbol::Ammunition, "AMMUNITION"),
        (TradeSymbol::Electronics, "ELECTRONICS"),
        (TradeSymbol::ShipPlating, "SHIP_PLATING"),
        (TradeSymbol::Equipment, "EQUIPMENT"),
        (TradeSymbol::Fuel, "FUEL"),
        (TradeSymbol::Medicine, "MEDICINE"),
        (TradeSymbol::Drugs, "DRUGS"),
        (TradeSymbol::Clothing, "CLOTHING"),
        (TradeSymbol::Microprocessors, "MICROPROCESSORS"),
        (TradeSymbol::Plastics, "PLASTICS"),
        (TradeSymbol::Polynucleotides, "POLYNUCLEOTIDES"),
        (TradeSymbol::Biocomposites, "BIOCOMPOSITES"),
        (TradeSymbol::Nanobots, "NANOBOTS"),
        (TradeSymbol::AiMainframes, "AI_MAINFRAMES"),
        (TradeSymbol::QuantumDrives, "QUANTUM_DRIVES"),
        (TradeSymbol::RoboticDrones, "ROBOTIC_DRONES"),
        (TradeSymbol::CyberImplants, "CYBER_IMPLANTS"),
        (TradeSymbol::GeneTherapeutics, "GENE_THERAPEUTICS"),
        (TradeSymbol::NeuralChips, "NEURAL_CHIPS"),
        (TradeSymbol::MoodRegulators, "MOOD_REGULATORS"),
        (TradeSymbol::ViralAgents, "VIRAL_AGENTS"),
        (TradeSymbol::MicroFusionGenerators, "MICRO_FUSION_GENERATORS"),
        (TradeSymbol::Supergrains, "SUPERGRAINS"),
        (TradeSymbol::LaserRifles, "LASER_RIFLES"),
        (TradeSymbol::Holographics, "HOLOGRAPHICS"),
        (TradeSymbol::ShipSalvage, "SHIP_SALVAGE"),
        (TradeSymbol::RelicTech, "RELIC_TECH"),
        (TradeSymbol::NovelLifeforms, "NOVEL_LIFEFORMS"),
        (TradeSymbol::BotanicalSpecimens, "BOTANICAL_SPECIMENS"),
        (TradeSymbol::CulturalArtifacts, "CULTURAL_ARTIFACTS"),
        (TradeSymbol::ReactorSolarI, "REACTOR_SOLAR_I"),
        (TradeSymbol::ReactorFusionI, "REACTOR_FUSION_I"),
        (TradeSymbol::ReactorFissionI, "REACTOR_FISSION_I"),
        (TradeSymbol::ReactorChemicalI, "REACTOR_CHEMICAL_I"),
        (TradeSymbol::ReactorAntimatterI, "REACTOR_ANTIMATTER_I"),
        (TradeSymbol::EngineImpulseDriveI, "ENGINE_IMPULSE_DRIVE_I"),
        (TradeSymbol::EngineIonDriveI, "ENGINE_ION_DRIVE_I"),
        (TradeSymbol::EngineIonDriveIi, "ENGINE_ION_DRIVE_II"),
        (TradeSymbol::EngineHyperDriveI, "ENGINE_HYPER_DRIVE_I"),
        (TradeSymbol::ModuleMineralProcessorI, "MODULE_MINERAL_PROCESSOR_I"),
        (TradeSymbol::ModuleCargoHoldI, "MODULE_CARGO_HOLD_I"),
        (TradeSymbol::ModuleCrewQuartersI, "MODULE_CREW_QUARTERS_I"),
        (TradeSymbol::ModuleEnvoyQuartersI, "MODULE_ENVOY_QUARTERS_I"),
        (TradeSymbol::ModulePassengerCabinI, "MODULE_PASSENGER_CABIN_I"),
        (TradeSymbol::ModuleMicroRefineryI, "MODULE_MICRO_REFINERY_I"),
        (TradeSymbol::ModuleOreRefineryI, "MODULE_ORE_REFINERY_I"),
        (TradeSymbol::ModuleFuelRefineryI, "MODULE_FUEL_REFINERY_I"),
        (TradeSymbol::ModuleScienceLabI, "MODULE_SCIENCE_LAB_I"),
        (TradeSymbol::ModuleJumpDriveI, "MODULE_JUMP_DRIVE_I"),
        (TradeSymbol::ModuleJumpDriveIi, "MODULE_JUMP_DRIVE_II"),
        (TradeSymbol::ModuleJumpDriveIii, "MODULE_JUMP_DRIVE_III"),
        (TradeSymbol::ModuleWarpDriveI, "MODULE_WARP_DRIVE_I"),
        (TradeSymbol::ModuleWarpDriveIi, "MODULE_WARP_DRIVE_II"),
        (TradeSymbol::ModuleWarpDriveIii, "MODULE_WARP_DRIVE_III"),
        (TradeSymbol::ModuleShieldGeneratorI, "MODULE_SHIELD_GENERATOR_I"),
        (TradeSymbol::ModuleShieldGeneratorIi, "MODULE_SHIELD_GENERATOR_II"),
        (TradeSymbol::MountGasSiphonI, "MOUNT_GAS_SIPHON_I"),
        (TradeSymbol::MountGasSiphonIi, "MOUNT_GAS_SIPHON_II"),
        (TradeSymbol::MountGasSiphonIii, "MOUNT_GAS_SIPHON_III"),
        (TradeSymbol::MountSurveyorI, "MOUNT_SURVEYOR_I"),
        (TradeSymbol::MountSurveyorIi, "MOUNT_SURVEYOR_II"),
        (TradeSymbol::MountSurveyorIii, "MOUNT_SURVEYOR_III"),
        (TradeSymbol::MountSensorArrayI, "MOUNT_SENSOR_ARRAY_I"),
        (TradeSymbol::MountSensorArrayIi, "MOUNT_SENSOR_ARRAY_II"),
        (TradeSymbol::MountSensorArrayIii, "MOUNT_SENSOR_ARRAY_III"),
        (TradeSymbol::MountMiningLaserI, "MOUNT_MINING_LASER_I"),
        (TradeSymbol::MountMiningLaserIi, "MOUNT_MINING_LASER_II"),
        (TradeSymbol::MountMiningLaserIii, "MOUNT_MINING_LASER_III"),
        (TradeSymbol::MountLaserCannonI, "MOUNT_LASER_CANNON_I"),
        (TradeSymbol::MountMissileLauncherI, "MOUNT_MISSILE_LAUNCHER_I"),
        (TradeSymbol::MountTurretI, "MOUNT_TURRET_I"),
    ];
    assert_eq!(table.len(), 110);
    for (variant, text) in table {
        assert_eq!(variant.encode(), text);
        assert_eq!(TradeSymbol::variant(text), Some(variant));
        assert_eq!(decode_symbol::<TradeSymbol>(variant.encode()), Ok(variant));
        assert_eq!(TradeSymbol::from_json(&Json::Str(text.to_string()), "symbol"), Ok(variant));
        assert_eq!(decode_api_response::<TradeSymbol>(&format!("{{\"data\":\"{}\"}}", text)), Ok(variant));
    }
    assert_eq!(TradeSymbol::family_name(), "TradeSymbol");
}

#[test]
fn waypoint_trait_symbol_round_trips() {
    let table = [
        (WaypointTraitSymbol::Uncharted, "UNCHARTED"),
        (WaypointTraitSymbol::Marketplace, "MARKETPLACE"),
        (WaypointTraitSymbol::Shipyard, "SHIPYARD"),
        (WaypointTraitSymbol::Outpost, "OUTPOST"),
        (WaypointTraitSymbol::ScatteredSettlements, "SCATTERED_SETTLEMENTS"),
        (WaypointTraitSymbol::SprawlingCities, "SPRAWLING_CITIES"),
        (WaypointTraitSymbol::MegaStructures, "MEGA_STRUCTURES"),
        (WaypointTraitSymbol::Overcrowded, "OVERCROWDED"),
        (WaypointTraitSymbol::HighTech, "HIGH_TECH"),
        (WaypointTraitSymbol::Corrupt, "CORRUPT"),
        (WaypointTraitSymbol::Bureaucratic, "BUREAUCRATIC"),
        (WaypointTraitSymbol::TradingHub, "TRADING_HUB"),
        (WaypointTraitSymbol::Industrial, "INDUSTRIAL"),
        (WaypointTraitSymbol::BlackMarket, "BLACK_MARKET"),
        (WaypointTraitSymbol::ResearchFacility, "RESEARCH_FACILITY"),
        (WaypointTraitSymbol::MilitaryBase, "MILITARY_BASE"),
        (WaypointTraitSymbol::SurveillanceOutpost, "SURVEILLANCE_OUTPOST"),
        (WaypointTraitSymbol::ExplorationOutpost, "EXPLORATION_OUTPOST"),
        (WaypointTraitSymbol::MineralDeposits, "MINERAL_DEPOSITS"),
        (WaypointTraitSymbol::CommonMetalDeposits, "COMMON_METAL_DEPOSITS"),
        (WaypointTraitSymbol::PreciousMetalDeposits, "PRECIOUS_METAL_DEPOSITS"),
        (WaypointTraitSymbol::RareMetalDeposits, "RARE_METAL_DEPOSITS"),
        (WaypointTraitSymbol::MethanePools, "METHANE_POOLS"),
        (WaypointTraitSymbol::IceCrystals, "ICE_CRYSTALS"),
        (WaypointTraitSymbol::ExplosiveGases, "EXPLOSIVE_GASES"),
        (WaypointTraitSymbol::StrongMagnetosphere, "STRONG_MAGNETOSPHERE"),
        (WaypointTraitSymbol::VibrantAuroras, "VIBRANT_AURORAS"),
        (WaypointTraitSymbol::SaltFlats, "SALT_FLATS"),
        (WaypointTraitSymbol::Canyons, "CANYONS"),
        (WaypointTraitSymbol::PerpetualDaylight, "PERPETUAL_DAYLIGHT"),
        (WaypointTraitSymbol::PerpetualOvercast, "PERPETUAL_OVERCAST"),
        (WaypointTraitSymbol::DrySeabeds, "DRY_SEABEDS"),
        (WaypointTraitSymbol::MagmaSeas, "MAGMA_SEAS"),
        (WaypointTraitSymbol::Supervolcanoes, "SUPERVOLCANOES"),
        (WaypointTraitSymbol::AshClouds, "ASH_CLOUDS"),
        (WaypointTraitSymbol::VastRuins, "VAST_RUINS"),
        (WaypointTraitSymbol::MutatedFlora, "MUTATED_FLORA"),
        (WaypointTraitSymbol::Terraformed, "TERRAFORMED"),
        (WaypointTraitSymbol::ExtremeTemperatures, "EXTREME_TEMPERATURES"),
        (WaypointTraitSymbol::ExtremePressure, "EXTREME_PRESSURE"),
        (WaypointTraitSymbol::DiverseLife, "DIVERSE_LIFE"),
        (WaypointTraitSymbol::ScarceLife, "SCARCE_LIFE"),
        (WaypointTraitSymbol::Fossils, "FOSSILS"),
        (WaypointTraitSymbol::WeakGravity, "WEAK_GRAVITY"),
        (WaypointTraitSymbol::StrongGravity, "STRONG_GRAVITY"),
        (WaypointTraitSymbol::CrushingGravity, "CRUSHING_GRAVITY"),
        (WaypointTraitSymbol::ToxicAtmosphere, "TOXIC_ATMOSPHERE"),
        (WaypointTraitSymbol::CorrosiveAtmosphere, "CORROSIVE_ATMOSPHERE"),
        (WaypointTraitSymbol::BreathableAtmosphere, "BREATHABLE_ATMOSPHERE"),
        (WaypointTraitSymbol::Jovian, "JOVIAN"),
        (WaypointTraitSymbol::Rocky, "ROCKY"),
        (WaypointTraitSymbol::Volcanic, "VOLCANIC"),
        (WaypointTraitSymbol::Frozen, "FROZEN"),
        (WaypointTraitSymbol::Swamp, "SWAMP"),
        (WaypointTraitSymbol::Barren, "BARREN"),
        (WaypointTraitSymbol::Temperate, "TEMPERATE"),
        (WaypointTraitSymbol::Jungle, "JUNGLE"),
        (WaypointTraitSymbol::Ocean, "OCEAN"),
        (WaypointTraitSymbol::Stripped, "STRIPPED"),
    ];
    assert_eq!(table.len(), 59);
    for (variant, text) in table {
        assert_eq!(variant.encode(), text);
        assert_eq!(WaypointTraitSymbol::variant(text), Some(variant));
        assert_eq!(decode_symbol::<WaypointTraitSymbol>(variant.encode()), Ok(variant));
        assert_eq!(WaypointTraitSymbol::from_json(&Json::Str(text.to_string()), "symbol"), Ok(variant));
        assert_eq!(decode_api_response::<WaypointTraitSymbol>(&format!("{{\"data\":\"{}\"}}", text)), Ok(variant));
    }
    assert_eq!(WaypointTraitSymbol::family_name(), "WaypointTraitSymbol");
}

#[test]
fn waypoint_type_round_trips() {
    let table = [
        (WaypointType::Planet, "PLANET"),
        (WaypointType::GasGiant, "GAS_GIANT"),
        (WaypointType::Moon, "MOON"),
        (WaypointType::OrbitalStation, "ORBITAL_STATION"),
        (WaypointType::JumpGate, "JUMP_GATE"),
        (WaypointType::AsteroidField, "ASTEROID_FIELD"),
        (WaypointType::Nebula, "NEBULA"),
        (WaypointType::DebrisField, "DEBRIS_FIELD"),
        (WaypointType::GravityWell, "GRAVITY_WELL"),
    ];
    assert_eq!(table.len(), 9);
    for (variant, text) in table {
        assert_eq!(variant.encode(), text);
        assert_eq!(WaypointType::variant(text), Some(variant));
        assert_eq!(decode_symbol::<WaypointType>(variant.encode()), Ok(variant));
        assert_eq!(WaypointType::from_json(&Json::Str(text.to_string()), "symbol"), Ok(variant));
        assert_eq!(decode_api_response::<WaypointType>(&format!("{{\"data\":\"{}\"}}", text)), Ok(variant));
    }
    assert_eq!(WaypointType::family_name(), "WaypointType");
}

#[test]
fn deposits_round_trips() {
    let table = [
        (Deposits::QuartzSand, "QUARTZ_SAND"),
        (Deposits::SiliconCrystals, "SILICON_CRYSTALS"),
        (Deposits::PreciousStones, "PRECIOUS_STONES"),
        (Deposits::IceWater, "ICE_WATER"),
        (Deposits::AmmoniaIce, "AMMONIA_ICE"),
        (Deposits::IronOre, "IRON_ORE"),
        (Deposits::CopperOre, "COPPER_ORE"),
        (Deposits::SilverOre, "SILVER_ORE"),
        (Deposits::AluminumOre, "ALUMINUM_ORE"),
        (Deposits::GoldOre, "GOLD_ORE"),
        (Deposits::PlatinumOre, "PLATINUM_ORE"),
        (Deposits::Diamonds, "DIAMONDS"),
        (Deposits::UraniteOre, "URANITE_ORE"),
        (Deposits::MeritiumOre, "MERITIUM_ORE"),
    ];
    assert_eq!(table.len(), 14);
    for (variant, text) in table {
        assert_eq!(variant.encode(), text);
        assert_eq!(Deposits::variant(text), Some(variant));
        assert_eq!(decode_symbol::<Deposits>(variant.encode()), Ok(variant));
        assert_eq!(Deposits::from_json(&Json::Str(text.to_string()), "symbol"), Ok(variant));
        assert_eq!(decode_api_response::<Deposits>(&format!("{{\"data\":\"{}\"}}", text)), Ok(variant));
    }
    assert_eq!(Deposits::family_name(), "Deposits");
}

#[test]
fn decode_gives_gas_giant() {
    assert_eq!(decode_symbol::<WaypointType>("GAS_GIANT"), Ok(WaypointType::GasGiant));
}

#[test]
fn decode_does_not_fold_case() {
    assert_eq!(
        decode_symbol::<WaypointType>("gas_giant"),
        Err(DecodeError::UnknownVariant { value: "gas_giant".to_string(), enum_name: "WaypointType".to_string() })
    );
    assert_eq!(
        decode_symbol::<WaypointType>("GasGiant"),
        Err(DecodeError::UnknownVariant { value: "GasGiant".to_string(), enum_name: "WaypointType".to_string() })
    );
}

#[test]
fn decode_does_not_trim() {
    assert_eq!(
        decode_symbol::<ShipRole>(" HAULER"),
        Err(DecodeError::UnknownVariant { value: " HAULER".to_string(), enum_name: "ShipRole".to_string() })
    );
    assert_eq!(
        decode_symbol::<ShipRole>("HAULER\n"),
        Err(DecodeError::UnknownVariant { value: "HAULER\n".to_string(), enum_name: "ShipRole".to_string() })
    );
}

#[test]
fn decode_refuses_the_empty_text() {
    assert_eq!(
        decode_symbol::<TradeSymbol>(""),
        Err(DecodeError::UnknownVariant { value: "".to_string(), enum_name: "TradeSymbol".to_string() })
    );
}

#[test]
fn decode_refuses_a_variant_of_another_enumeration() {
    assert_eq!(WaypointType::variant("NEBULA"), Some(WaypointType::Nebula));
    assert_eq!(SystemType::variant("NEBULA"), Some(SystemType::Nebula));
    assert_eq!(SystemType::variant("PLANET"), None);
    assert_eq!(Deposits::variant("IRON"), None);
    assert_eq!(TradeSymbol::variant("IRON"), Some(TradeSymbol::Iron));
}

#[test]
fn decode_tells_a_wire_string_from_its_prefix() {
    assert_eq!(ShipModuleSymbols::variant("MODULE_JUMP_DRIVE_I"), Some(ShipModuleSymbols::ModuleJumpDriveI));
    assert_eq!(ShipModuleSymbols::variant("MODULE_JUMP_DRIVE_II"), Some(ShipModuleSymbols::ModuleJumpDriveIi));
    assert_eq!(ShipModuleSymbols::variant("MODULE_JUMP_DRIVE_III"), Some(ShipModuleSymbols::ModuleJumpDriveIii));
    assert_eq!(ShipModuleSymbols::variant("MODULE_JUMP_DRIVE_IIII"), None);
    assert_eq!(ShipModuleSymbols::variant("MODULE_JUMP_DRIVE_"), None);
}

#[test]
fn unknown_enum_variant() {
    let j = Json::Str("WORMHOLE".to_string());
    assert_eq!(
        symbol_from_json::<WaypointType>(&j, "type"),
        Err(DecodeError::UnknownVariant { value: "WORMHOLE".to_string(), enum_name: "WaypointType".to_string() })
    );
}

#[test]
fn symbol_from_json_wants_a_string() {
    assert_eq!(
        symbol_from_json::<WaypointType>(&Json::Int(3), "type"),
        Err(DecodeError::TypeMismatch { field: "type".to_string(), expected: Shape::Text, got: JsonKind::Int })
    );
    assert_eq!(
        symbol_from_json::<WaypointType>(&Json::Null, "type"),
        Err(DecodeError::TypeMismatch { field: "type".to_string(), expected: Shape::Text, got: JsonKind::Null })
    );
}

#[test]
fn symbol_from_json_decodes_a_member() {
    assert_eq!(symbol_from_json::<ShipNavStatus>(&Json::Str("IN_TRANSIT".to_string()), "status"), Ok(ShipNavStatus::InTransit));
}

#[test]
fn an_unknown_variant_in_an_envelope_is_a_bad_reply() {
    let r = decode_api_response::<WaypointType>("{\"data\":\"WORMHOLE\"}");
    assert_eq!(r.unwrap_err().code, 6000);
    let r = decode_api_response::<TradeSymbol>("{\"data\":\"iron\"}");
    assert_eq!(r.unwrap_err().message, "badReplyError");
}
