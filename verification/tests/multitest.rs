//! End-to-end exercises of the contract through `execute` and `query`,
//! driven by a small in-memory stand-in for the host: it owns the state,
//! tracks bank balances, and applies returned transfers only when a call
//! succeeds.

use std::collections::HashMap;

use luna_distributor::contract::execute;
use luna_distributor::contract::instantiate;
use luna_distributor::contract::query as contract_query;
use luna_distributor::error::ContractError;
use luna_distributor::math::Decimal;
use luna_distributor::msg::coin;
use luna_distributor::msg::Coin;
use luna_distributor::msg::ExecuteMsg;
use luna_distributor::msg::HostInfo;
use luna_distributor::msg::InstantiateMsg;
use luna_distributor::msg::MessageInfo;
use luna_distributor::msg::QueryMsg;
use luna_distributor::msg::QueryResponse;
use luna_distributor::msg::Transfer;
use luna_distributor::msg::WeightPerProtocol as MsgWeightPerProtocol;
use luna_distributor::msg::Whitelist as MsgWhitelist;
use luna_distributor::state::Addr;
use luna_distributor::state::Config;
use luna_distributor::state::Deposits;
use luna_distributor::state::WeightPerProtocol;
use luna_distributor::state::Whitelist;

const CONTRACT: &str = "contract0";

struct SuiteBuilder {
    admin: String,
    burn_address: String,
    developer_address: Option<String>,
    whitelist: Vec<MsgWhitelist>,
    weight_per_protocol: Vec<MsgWeightPerProtocol>,
    funds: Vec<(String, Vec<Coin>)>,
}

impl SuiteBuilder {
    fn new() -> Self {
        Self {
            admin: "owner".to_owned(),
            burn_address: "burnaddress".to_owned(),
            developer_address: None,
            whitelist: vec![],
            weight_per_protocol: vec![],
            funds: vec![],
        }
    }

    fn with_admin(mut self, admin: &str) -> Self {
        self.admin = admin.to_owned();
        self
    }

    fn with_developer(mut self, developer: &str) -> Self {
        self.developer_address = Some(developer.to_owned());
        self
    }

    fn with_whitelist(mut self, whitelist: &[(&str, &str)]) -> Self {
        let mut list = vec![];
        for (address, protocol) in whitelist {
            list.push(MsgWhitelist {
                address: address.to_string(),
                protocol: protocol.to_string(),
            });
        }
        self.whitelist = list;
        self
    }

    fn with_weights_per_protocol(mut self, list: &[(&str, u64)]) -> Self {
        let mut weights = vec![];
        for (protocol, weight) in list {
            weights.push(MsgWeightPerProtocol {
                protocol: protocol.to_string(),
                weight: Decimal::percent(*weight),
            });
        }
        self.weight_per_protocol = weights;
        self
    }

    fn with_funds(mut self, addr: &str, funds: &[Coin]) -> Self {
        self.funds.push((addr.to_owned(), funds.to_vec()));
        self
    }

    fn build(self) -> Suite {
        let config = instantiate(InstantiateMsg {
            admin: self.admin,
            burn_address: self.burn_address.clone(),
            developer_address: self.developer_address.clone(),
            whitelist: self.whitelist,
            weight_per_protocol: self.weight_per_protocol,
        })
        .unwrap();
        let mut bank = HashMap::new();
        for (addr, coins) in self.funds {
            for c in coins {
                *bank.entry((addr.clone(), c.denom)).or_insert(0u128) += c.amount;
            }
        }
        Suite {
            config,
            deposits: Deposits::new(),
            bank,
            owner: "owner".to_owned(),
            burn_address: self.burn_address,
        }
    }
}

struct Suite {
    config: Config,
    deposits: Deposits,
    bank: HashMap<(String, String), u128>,
    owner: String,
    burn_address: String,
}

impl Suite {
    fn owner(&self) -> String {
        self.owner.clone()
    }

    fn burn_address(&self) -> String {
        self.burn_address.clone()
    }

    fn bank_balance(&self, addr: &str, denom: &str) -> u128 {
        *self
            .bank
            .get(&(addr.to_owned(), denom.to_owned()))
            .unwrap_or(&0)
    }

    fn move_funds(&mut self, from: &str, to: &str, amount: u128, denom: &str) {
        let src = self
            .bank
            .entry((from.to_owned(), denom.to_owned()))
            .or_insert(0);
        assert!(*src >= amount, "bank balance too low");
        *src -= amount;
        *self.bank.entry((to.to_owned(), denom.to_owned())).or_insert(0) += amount;
    }

    /// Runs one call the way the host would: hand in the queried contract
    /// balance, commit bank movements only on success.
    fn call(
        &mut self,
        sender: &str,
        funds: &[Coin],
        msg: ExecuteMsg,
    ) -> Result<Vec<Transfer>, ContractError> {
        let balance_denom = match &msg {
            ExecuteMsg::Distribute { denom } => denom.clone(),
            ExecuteMsg::BurnTheBottom { denom, .. } => denom.clone(),
            _ => String::new(),
        };
        let host = HostInfo {
            contract_balance: self.bank_balance(CONTRACT, &balance_denom),
            tax: None,
        };
        let info = MessageInfo {
            sender: Addr::unchecked(sender.to_owned()),
            funds: funds.to_vec(),
        };
        let result = execute(&mut self.config, &mut self.deposits, info, host, msg);
        if let Ok(transfers) = &result {
            for f in funds {
                self.move_funds(sender, CONTRACT, f.amount, &f.denom);
            }
            for t in transfers {
                self.move_funds(CONTRACT, &t.to_address, t.amount, &t.denom);
            }
        }
        result
    }

    fn deposit(&mut self, sender: &str, funds: &[Coin]) -> Result<Vec<Transfer>, ContractError> {
        self.call(sender, funds, ExecuteMsg::Deposit {})
    }

    fn withdraw(
        &mut self,
        sender: &str,
        denom: &str,
        amount: Option<u128>,
    ) -> Result<Vec<Transfer>, ContractError> {
        self.call(
            sender,
            &[],
            ExecuteMsg::Withdraw {
                amount,
                denom: denom.to_owned(),
            },
        )
    }

    fn distribute(&mut self, sender: &str, denom: &str) -> Result<Vec<Transfer>, ContractError> {
        self.call(
            sender,
            &[],
            ExecuteMsg::Distribute {
                denom: denom.to_owned(),
            },
        )
    }

    fn burn_the_bottom(
        &mut self,
        sender: &str,
        minimum_threshold: u128,
        denom: &str,
    ) -> Result<Vec<Transfer>, ContractError> {
        self.call(
            sender,
            &[],
            ExecuteMsg::BurnTheBottom {
                minimum_threshold,
                denom: denom.to_owned(),
            },
        )
    }

    fn update_config(
        &mut self,
        sender: &str,
        admin: impl Into<Option<String>>,
        burn_address: impl Into<Option<String>>,
        whitelist: impl Into<Option<Vec<MsgWhitelist>>>,
        weight_per_protocol: impl Into<Option<Vec<MsgWeightPerProtocol>>>,
    ) -> Result<Vec<Transfer>, ContractError> {
        self.call(
            sender,
            &[],
            ExecuteMsg::UpdateConfig {
                admin: admin.into(),
                burn_address: burn_address.into(),
                developer_address: None,
                whitelist: whitelist.into(),
                weight_per_protocol: weight_per_protocol.into(),
            },
        )
    }

    fn query_deposit(&self, address: &str, denom: &str) -> Coin {
        match contract_query(
            &self.config,
            &self.deposits,
            QueryMsg::Deposit {
                address: address.to_owned(),
                denom: denom.to_owned(),
            },
        ) {
            QueryResponse::Deposit(c) => c,
            other => panic!("unexpected query answer: {:?}", other),
        }
    }

    fn query_config(&self) -> Config {
        match contract_query(&self.config, &self.deposits, QueryMsg::Config {}) {
            QueryResponse::Config(c) => c,
            other => panic!("unexpected query answer: {:?}", other),
        }
    }

    fn query_user_balance(&self, address: &str, denom: &str) -> u128 {
        self.bank_balance(address, denom)
    }

    fn query_contract_balance(&self, denom: &str) -> u128 {
        self.bank_balance(CONTRACT, denom)
    }
}

// ---------------------------------------------------------------------------
// Deposits
// ---------------------------------------------------------------------------

#[test]
fn unsupported_denom() {
    let user = "user";
    let mut suite = SuiteBuilder::new()
        .with_funds(user, &[coin(50, "BTC")])
        .build();

    let err = suite.deposit(user, &[coin(50, "BTC")]).unwrap_err();
    assert_eq!(ContractError::UnsupportedDenom("BTC".to_owned()), err);
}

#[test]
fn more_then_one_coin() {
    let user = "user";
    let mut suite = SuiteBuilder::new()
        .with_funds(user, &[coin(50, "uluna"), coin(50, "uusd")])
        .build();

    let err = suite
        .deposit(user, &[coin(50, "uluna"), coin(50, "uusd")])
        .unwrap_err();
    assert_eq!(ContractError::DepositMoreThenOne {}, err);
}

#[test]
fn deposit_works() {
    let user = "user";
    let mut suite = SuiteBuilder::new()
        .with_funds(user, &[coin(60, "uluna"), coin(4000, "uusd")])
        .build();

    suite.deposit(user, &[coin(50, "uluna")]).unwrap();
    suite.deposit(user, &[coin(3333, "uusd")]).unwrap();

    assert_eq!(suite.query_deposit(user, "uluna"), coin(50, "uluna"));
    assert_eq!(suite.query_deposit(user, "uusd"), coin(3333, "uusd"));
}

#[test]
fn deposit_multiple_times() {
    let user = "user";
    let mut suite = SuiteBuilder::new()
        .with_funds(user, &[coin(5000, "uluna")])
        .build();

    suite.deposit(user, &[coin(50, "uluna")]).unwrap();
    assert_eq!(suite.query_deposit(user, "uluna"), coin(50, "uluna"));
    suite.deposit(user, &[coin(3000, "uluna")]).unwrap();
    assert_eq!(suite.query_deposit(user, "uluna"), coin(3050, "uluna"));
    suite.deposit(user, &[coin(600, "uluna")]).unwrap();
    assert_eq!(suite.query_deposit(user, "uluna"), coin(3650, "uluna"));
}

// ---------------------------------------------------------------------------
// Withdrawals
// ---------------------------------------------------------------------------

#[test]
fn withdraw_works() {
    let user = "user";
    let mut suite = SuiteBuilder::new()
        .with_funds(user, &[coin(50, "uluna")])
        .build();

    suite.deposit(user, &[coin(50, "uluna")]).unwrap();
    assert_eq!(suite.query_deposit(user, "uluna"), coin(50, "uluna"));
    assert_eq!(suite.query_user_balance(user, "uluna"), 0);

    suite.withdraw(user, "uluna", None).unwrap();
    assert_eq!(suite.query_deposit(user, "uluna"), coin(0, "uluna"));
    assert_eq!(suite.query_user_balance(user, "uluna"), 50);
}

#[test]
fn no_balance() {
    let user = "user";
    let mut suite = SuiteBuilder::new()
        .with_funds(user, &[coin(50, "uluna")])
        .build();

    suite.deposit(user, &[coin(50, "uluna")]).unwrap();
    assert_eq!(suite.query_deposit(user, "uluna"), coin(50, "uluna"));

    suite.withdraw(user, "uluna", None).unwrap();
    assert_eq!(suite.query_deposit(user, "uluna"), coin(0, "uluna"));

    let err = suite.withdraw(user, "uluna", None).unwrap_err();
    assert_eq!(ContractError::NoBalance {}, err);
}

// ---------------------------------------------------------------------------
// Distribution
// ---------------------------------------------------------------------------

#[test]
fn distribute_works() {
    let user = "user";
    let mut suite = SuiteBuilder::new()
        .with_whitelist(&[
            ("contract1", "terraswap"),
            ("contract2", "curve"),
            ("contract3", "multichain"),
        ])
        .with_weights_per_protocol(&[("terraswap", 50), ("curve", 30), ("multichain", 20)])
        .with_funds(user, &[coin(100_000_000, "uluna")])
        .build();

    suite.deposit(user, &[coin(100_000_000, "uluna")]).unwrap();
    assert_eq!(
        suite.query_deposit(user, "uluna"),
        coin(100_000_000, "uluna")
    );

    let transfers = suite.distribute(user, "uluna").unwrap();
    assert_eq!(
        transfers[0],
        Transfer {
            to_address: suite.burn_address(),
            amount: 77_780_000, // 77.78% of 100_000_000
            denom: "uluna".to_owned(),
        }
    );
    assert_eq!(
        transfers[1],
        Transfer {
            to_address: "contract1".to_owned(),
            amount: 11_110_000, // 22.22% of 100_000_000 times 0.5 weight
            denom: "uluna".to_owned(),
        }
    );
    assert_eq!(
        transfers[2],
        Transfer {
            to_address: "contract2".to_owned(),
            amount: 6_666_000, // 22.22% of 100_000_000 times 0.3 weight
            denom: "uluna".to_owned(),
        }
    );
    assert_eq!(
        transfers[3],
        Transfer {
            to_address: "contract3".to_owned(),
            amount: 4_444_000, // 22.22% of 100_000_000 times 0.2 weight
            denom: "uluna".to_owned(),
        }
    );
    // At these exact percentages the transfers sum to the whole balance:
    // no dust is left behind.
    let total: u128 = transfers.iter().map(|t| t.amount).sum();
    assert_eq!(total, 100_000_000);
    assert_eq!(suite.query_contract_balance("uluna"), 0);
}

#[test]
fn missing_protocol_weight() {
    let user = "user";
    let mut suite = SuiteBuilder::new()
        .with_whitelist(&[
            ("contract1", "terraswap"),
            ("contract2", "curve"),
            ("contract3", "multichain"),
        ])
        .with_weights_per_protocol(&[("terraswap", 50), ("multichain", 20)])
        .with_funds(user, &[coin(100_000_000, "uluna")])
        .build();

    suite.deposit(user, &[coin(100_000_000, "uluna")]).unwrap();
    assert_eq!(
        suite.query_deposit(user, "uluna"),
        coin(100_000_000, "uluna")
    );

    let err = suite.distribute(user, "uluna").unwrap_err();
    assert_eq!(ContractError::MissingProtocol("curve".to_owned()), err);
    // Atomicity: the failed call moved nothing.
    assert_eq!(suite.query_contract_balance("uluna"), 100_000_000);
}

// ---------------------------------------------------------------------------
// Burn the bottom
// ---------------------------------------------------------------------------

#[test]
fn balance_not_enough() {
    let user = "user";
    let mut suite = SuiteBuilder::new()
        .with_whitelist(&[
            ("contract1", "terraswap"),
            ("contract2", "curve"),
            ("contract3", "multichain"),
        ])
        .with_funds(user, &[coin(100_000_000, "uluna")])
        .build();

    suite.deposit(user, &[coin(100_000_000, "uluna")]).unwrap();

    assert_eq!(suite.query_contract_balance("uluna"), 100_000_000);

    // The balance has not reached the threshold: a successful no-op.
    let transfers = suite.burn_the_bottom(user, 1_000_000_000, "uluna").unwrap();
    assert!(transfers.is_empty());

    // nothing changed
    assert_eq!(suite.query_contract_balance("uluna"), 100_000_000);
}

#[test]
fn balance_reaches_threshold() {
    let user = "user";
    let mut suite = SuiteBuilder::new()
        .with_funds(user, &[coin(1_000_000, "uluna")])
        .build();

    suite.deposit(user, &[coin(1_000_000, "uluna")]).unwrap();
    assert_eq!(suite.query_contract_balance("uluna"), 1_000_000);

    // At the threshold the whole balance is burned in a single transfer.
    let transfers = suite.burn_the_bottom(user, 1_000_000, "uluna").unwrap();
    assert_eq!(
        transfers,
        vec![Transfer {
            to_address: suite.burn_address(),
            amount: 1_000_000,
            denom: "uluna".to_owned(),
        }]
    );
    assert_eq!(suite.query_contract_balance("uluna"), 0);
    assert_eq!(suite.query_user_balance(&suite.burn_address(), "uluna"), 1_000_000);
}

// ---------------------------------------------------------------------------
// Configuration
// ---------------------------------------------------------------------------

#[test]
fn query() {
    let suite = SuiteBuilder::new()
        .with_developer("developer")
        .with_whitelist(&[
            ("contract1", "terraswap"),
            ("contract2", "curve"),
            ("contract3", "multichain"),
        ])
        .with_weights_per_protocol(&[("terraswap", 50), ("curve", 30), ("multichain", 20)])
        .build();

    let whitelist = vec![
        Whitelist {
            address: Addr::unchecked("contract1".to_owned()),
            protocol: "terraswap".to_owned(),
        },
        Whitelist {
            address: Addr::unchecked("contract2".to_owned()),
            protocol: "curve".to_owned(),
        },
        Whitelist {
            address: Addr::unchecked("contract3".to_owned()),
            protocol: "multichain".to_owned(),
        },
    ];
    let weight_per_protocol = vec![
        WeightPerProtocol {
            protocol: "terraswap".to_owned(),
            weight: Decimal::percent(50),
        },
        WeightPerProtocol {
            protocol: "curve".to_owned(),
            weight: Decimal::percent(30),
        },
        WeightPerProtocol {
            protocol: "multichain".to_owned(),
            weight: Decimal::percent(20),
        },
    ];

    let res = suite.query_config();
    assert_eq!(
        res,
        Config {
            admin: suite.owner(),
            burn_address: Addr::unchecked(suite.burn_address()),
            developer_address: Some(Addr::unchecked("developer".to_owned())),
            whitelist,
            weight_per_protocol,
            percent_to_burn: Decimal::percent(70),
            percent_to_developer: Decimal::percent(10),
            percent_to_distribute: Decimal::percent(20),
        }
    );
}

#[test]
fn update() {
    let mut suite = SuiteBuilder::new()
        .with_developer("developer")
        .with_whitelist(&[
            ("contract1", "terraswap"),
            ("contract2", "curve"),
            ("contract3", "multichain"),
        ])
        .with_weights_per_protocol(&[("terraswap", 50), ("curve", 30), ("multichain", 20)])
        .build();

    let new_whitelist = vec![
        MsgWhitelist {
            address: "contract1".to_owned(),
            protocol: "terraswap".to_owned(),
        },
        MsgWhitelist {
            address: "contract2".to_owned(),
            protocol: "some_other_protocol".to_owned(),
        },
        MsgWhitelist {
            address: "contract33".to_owned(),
            protocol: "multichain".to_owned(),
        },
    ];
    let new_weight_per_protocol = vec![
        MsgWeightPerProtocol {
            protocol: "terraswap".to_owned(),
            weight: Decimal::percent(60),
        },
        MsgWeightPerProtocol {
            protocol: "some_other_protocol".to_owned(),
            weight: Decimal::percent(23),
        },
        MsgWeightPerProtocol {
            protocol: "multichain".to_owned(),
            weight: Decimal::percent(17),
        },
    ];

    let owner = suite.owner();
    suite
        .update_config(
            owner.as_str(),
            None,
            None,
            new_whitelist,
            new_weight_per_protocol,
        )
        .unwrap();

    let whitelist = vec![
        Whitelist {
            address: Addr::unchecked("contract1".to_owned()),
            protocol: "terraswap".to_owned(),
        },
        Whitelist {
            address: Addr::unchecked("contract2".to_owned()),
            protocol: "some_other_protocol".to_owned(),
        },
        Whitelist {
            address: Addr::unchecked("contract33".to_owned()),
            protocol: "multichain".to_owned(),
        },
    ];
    let weight_per_protocol = vec![
        WeightPerProtocol {
            protocol: "terraswap".to_owned(),
            weight: Decimal::percent(60),
        },
        WeightPerProtocol {
            protocol: "some_other_protocol".to_owned(),
            weight: Decimal::percent(23),
        },
        WeightPerProtocol {
            protocol: "multichain".to_owned(),
            weight: Decimal::percent(17),
        },
    ];

    let res = suite.query_config();
    assert_eq!(
        res,
        Config {
            admin: suite.owner(),
            burn_address: Addr::unchecked(suite.burn_address()),
            developer_address: Some(Addr::unchecked("developer".to_owned())),
            whitelist,
            weight_per_protocol,
            percent_to_burn: Decimal::percent(70),
            percent_to_developer: Decimal::percent(10),
            percent_to_distribute: Decimal::percent(20),
        }
    );
}

#[test]
fn update_unauthorized() {
    let mut suite = SuiteBuilder::new()
        .with_whitelist(&[
            ("contract1", "terraswap"),
            ("contract2", "curve"),
            ("contract3", "multichain"),
        ])
        .with_weights_per_protocol(&[("terraswap", 50), ("curve", 30), ("multichain", 20)])
        .build();

    let err = suite
        .update_config("someone_else", None, None, None, None)
        .unwrap_err();
    assert_eq!(ContractError::Unauthorized {}, err);
}

#[test]
fn update_with_empty_admin() {
    let mut suite = SuiteBuilder::new()
        .with_admin("")
        .with_whitelist(&[
            ("contract1", "terraswap"),
            ("contract2", "curve"),
            ("contract3", "multichain"),
        ])
        .with_weights_per_protocol(&[("terraswap", 50), ("curve", 30), ("multichain", 20)])
        .build();

    let owner = suite.owner();
    let err = suite
        .update_config(owner.as_str(), None, None, None, None)
        .unwrap_err();
    assert_eq!(ContractError::ConfigNotUpdatable {}, err);
}

#[test]
fn update_to_empty_admin() {
    let mut suite = SuiteBuilder::new()
        .with_whitelist(&[
            ("contract1", "terraswap"),
            ("contract2", "curve"),
            ("contract3", "multichain"),
        ])
        .with_weights_per_protocol(&[("terraswap", 50), ("curve", 30), ("multichain", 20)])
        .build();

    let owner = suite.owner();
    // first update to empty admin ""
    suite
        .update_config(owner.as_str(), Some("".to_owned()), None, None, None)
        .unwrap();

    assert!(matches!(suite.query_config(),
            Config {
                admin, ..
            } if admin.is_empty()));

    let err = suite
        .update_config(owner.as_str(), None, None, None, None)
        .unwrap_err();
    assert_eq!(ContractError::ConfigNotUpdatable {}, err);
}

#[test]
fn config_query_works() {
    let suite = SuiteBuilder::new()
        .with_whitelist(&[
            ("contract1", "terraswap"),
            ("contract2", "curve"),
            ("contract3", "multichain"),
        ])
        .with_weights_per_protocol(&[("terraswap", 50), ("curve", 30), ("multichain", 20)])
        .build();

    let whitelist = vec![
        Whitelist {
            address: Addr::unchecked("contract1".to_owned()),
            protocol: "terraswap".to_owned(),
        },
        Whitelist {
            address: Addr::unchecked("contract2".to_owned()),
            protocol: "curve".to_owned(),
        },
        Whitelist {
            address: Addr::unchecked("contract3".to_owned()),
            protocol: "multichain".to_owned(),
        },
    ];
    let weight_per_protocol = vec![
        WeightPerProtocol {
            protocol: "terraswap".to_owned(),
            weight: Decimal::percent(50),
        },
        WeightPerProtocol {
            protocol: "curve".to_owned(),
            weight: Decimal::percent(30),
        },
        WeightPerProtocol {
            protocol: "multichain".to_owned(),
            weight: Decimal::percent(20),
        },
    ];

    let res = suite.query_config();
    assert_eq!(
        res,
        Config {
            admin: suite.owner(),
            burn_address: Addr::unchecked("burnaddress".to_owned()),
            developer_address: None,
            whitelist,
            weight_per_protocol,
            percent_to_burn: Decimal::from_ratio(7778u128, 10000u128),
            percent_to_developer: Decimal::zero(),
            percent_to_distribute: Decimal::from_ratio(2222u128, 10000u128),
        }
    );
}
