pub mod address;
pub mod instruction;
pub mod meteora_damm_v2_params;
pub mod pumpfun_params;
pub mod pumpfun;
pub mod pumpfun_ix_data;
