pub mod flat_fee;
