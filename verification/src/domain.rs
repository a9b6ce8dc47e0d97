pub mod tofu;
