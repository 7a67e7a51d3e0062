pub mod burn_for_sol_v2;
pub mod burn_for_token;
pub mod burn_v2;
pub mod crank_process_v2;
pub mod extract;
pub mod extract_sol;
pub mod extract_sol_v2;
pub mod snowball_nft;
pub mod initialize_fungible_token_inject;
pub mod initialize_inject;
pub mod initialize_sol_inject;
pub mod inject_sol_v2;
pub mod inject_to_non_root_v2;
pub mod transfer_child_nft_v2;
pub mod transfer_crank_end_v2;
pub mod transfer_crank_init;
pub mod transfer_crank_process_v2;
pub mod transfer_crank_v2;
pub mod nft_copy;
