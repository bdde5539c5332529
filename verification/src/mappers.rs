//! One module per board.
pub mod mapper289;
pub mod mapper290;
pub mod mapper293;
pub mod mapper294;
pub mod mapper300;
pub mod mapper301;
pub mod mapper302;
pub mod mapper304;
pub mod mapper298;
pub mod mapper327;
pub mod mapper328;
pub mod mapper342;
pub mod mapper329;
pub mod mapper330;
pub mod mapper336;
pub mod mapper340;
pub mod mapper41;
pub mod mapper57;
pub mod mapper58;
pub mod mapper39;
pub mod mapper60;
pub mod mapper305;
pub mod mapper306;
pub mod mapper291;
pub mod mapper296;
pub mod mapper297;
pub mod mapper303;
pub mod mapper308;
pub mod mapper326;
pub mod mapper51;
pub mod mapper55;
pub mod mapper319;
pub mod mapper312;
pub mod mapper74;
pub mod mapper43;
pub mod mapper321;
pub mod mapper334;
pub mod mapper344;
pub mod mapper348;
pub mod mapper44;
pub mod mapper320;
pub mod mapper309;
