pub mod gamepad;
