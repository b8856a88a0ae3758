pub mod mount;
pub mod netns;
pub mod security;
pub mod userns;
