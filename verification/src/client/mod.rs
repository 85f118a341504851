pub mod bridge;
pub mod schematic_ops;
