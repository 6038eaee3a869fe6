//! Vulkan configuration: API versions, device ranking, descriptor pools and
//! the descriptor set layouts they are sized for.

pub mod descriptor;
pub mod device;
pub mod layout;
pub mod version;
