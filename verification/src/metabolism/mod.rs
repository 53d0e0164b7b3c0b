pub mod ecs;
