//! Decision logic of a graphics-mode switching daemon for hybrid-GPU laptops:
//! the modes, the ordered action lists that move the machine between them,
//! the configuration and its migrations, dGPU detection and the ASUS firmware
//! switches, each stated over a mathematical model and proved.
pub mod text;
pub mod error;
pub mod pci_device;
pub mod actions;
pub mod action_order;
pub mod config;
pub mod config_old;
pub mod sysfs;
pub mod drivers;
pub mod special_asus;
pub mod systemd;
pub mod controller;
pub mod cli;
pub mod cmdline;
