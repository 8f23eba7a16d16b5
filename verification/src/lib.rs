//! Control core of an energy-storage-system controller for a Multi/Quattro
//! inverter-charger, with every decision stated as a contract and proved.

pub mod battery_limits;
pub mod bus;
pub mod cli;
pub mod control;
pub mod dess;
pub mod feedin;
pub mod fine;
pub mod generator;
pub mod gridmeter;
pub mod hub4_service;
pub mod loop_core;
pub mod num;
pub mod pv;
pub mod rls;
pub mod session;
pub mod shore;
pub mod socguard;
pub mod stage;
pub mod states;
pub mod telemetry;
pub mod text;
