use propchain::primitives::AccountId;
use propchain::token::{ComplianceInfo, Error, Event, OwnershipTransfer};
use propchain::traits::{PropertyInfo, PropertyMetadata};
use std::cell::{Cell, RefCell};
use std::rc::Rc;

struct Accounts {
    alice: AccountId,
    bob: AccountId,
    charlie: AccountId,
}

fn default_accounts() -> Accounts {
    Accounts {
        alice: AccountId::from([0x01; 32]),
        bob: AccountId::from([0x02; 32]),
        charlie: AccountId::from([0x03; 32]),
    }
}

/// What the host tells a contract: who calls, and when.
#[derive(Clone)]
struct Env {
    caller: Rc<Cell<AccountId>>,
    timestamp: Rc<Cell<u64>>,
    events: Rc<RefCell<Vec<Event>>>,
}

impl Env {
    fn new() -> Env {
        Env {
            caller: Rc::new(Cell::new(default_accounts().alice)),
            timestamp: Rc::new(Cell::new(0)),
            events: Rc::new(RefCell::new(Vec::new())),
        }
    }

    fn set_caller(&self, caller: AccountId) {
        self.caller.set(caller);
    }
}

/// The token contract as a host would run it: every call is made by the
/// current caller at the current time, and the notifications are published.
struct PropertyToken {
    inner: propchain::token::PropertyToken,
    env: Env,
    account: AccountId,
}

#[allow(dead_code)]
impl PropertyToken {
    fn new(env: &Env) -> Self {
        PropertyToken {
            inner: propchain::token::PropertyToken::new(env.caller.get()),
            env: env.clone(),
            account: AccountId::from([0x07; 32]),
        }
    }

    fn publish(&mut self) {
        let events = self.inner.take_events();
        self.env.events.borrow_mut().extend(events);
    }

    fn caller(&self) -> AccountId {
        self.env.caller.get()
    }

    fn now(&self) -> u64 {
        self.env.timestamp.get()
    }

    fn account_id(&self) -> AccountId {
        self.account
    }

    fn balance_of(&self, owner: AccountId) -> u32 {
        self.inner.balance_of(owner)
    }

    fn owner_of(&self, token_id: u64) -> Option<AccountId> {
        self.inner.owner_of(token_id)
    }

    fn transfer_from(&mut self, from: AccountId, to: AccountId, token_id: u64) -> Result<(), Error> {
        let r = self.inner.transfer_from(self.caller(), self.now(), from, to, token_id);
        self.publish();
        r
    }

    fn approve(&mut self, to: AccountId, token_id: u64) -> Result<(), Error> {
        let r = self.inner.approve(self.caller(), to, token_id);
        self.publish();
        r
    }

    fn set_approval_for_all(&mut self, operator: AccountId, approved: bool) -> Result<(), Error> {
        let r = self.inner.set_approval_for_all(self.caller(), operator, approved);
        self.publish();
        r
    }

    fn get_approved(&self, token_id: u64) -> Option<AccountId> {
        self.inner.get_approved(token_id)
    }

    fn is_approved_for_all(&self, owner: AccountId, operator: AccountId) -> bool {
        self.inner.is_approved_for_all(owner, operator)
    }

    fn balance_of_batch(&self, accounts: Vec<AccountId>, ids: Vec<u64>) -> Vec<u128> {
        self.inner.balance_of_batch(accounts, ids)
    }

    fn safe_batch_transfer_from(
        &mut self,
        from: AccountId,
        to: AccountId,
        ids: Vec<u64>,
        amounts: Vec<u128>,
        data: Vec<u8>,
    ) -> Result<(), Error> {
        let r = self.inner.safe_batch_transfer_from(self.caller(), from, to, ids, amounts, data);
        self.publish();
        r
    }

    fn uri(&self, token_id: u64) -> Option<String> {
        self.inner.uri(self.account, token_id)
    }

    fn register_property_with_token(&mut self, metadata: PropertyMetadata) -> Result<u64, Error> {
        let r = self.inner.register_property_with_token(self.caller(), self.now(), metadata);
        self.publish();
        r
    }

    fn attach_legal_document(
        &mut self,
        token_id: u64,
        document_hash: propchain::primitives::Hash,
        document_type: String,
    ) -> Result<(), Error> {
        let r = self.inner.attach_legal_document(
            self.caller(),
            self.now(),
            token_id,
            document_hash,
            document_type,
        );
        self.publish();
        r
    }

    fn verify_compliance(&mut self, token_id: u64, verification_status: bool) -> Result<(), Error> {
        let r = self.inner.verify_compliance(self.caller(), self.now(), token_id, verification_status);
        self.publish();
        r
    }

    fn get_compliance(&self, token_id: u64) -> Option<ComplianceInfo> {
        self.inner.get_compliance(token_id)
    }

    fn get_ownership_history(&self, token_id: u64) -> Option<Vec<OwnershipTransfer>> {
        self.inner.get_ownership_history(token_id)
    }

    fn bridge_to_chain(
        &mut self,
        destination_chain: u64,
        token_id: u64,
        recipient: AccountId,
    ) -> Result<(), Error> {
        let r = self.inner.bridge_to_chain(
            self.caller(),
            self.now(),
            destination_chain,
            token_id,
            recipient,
        );
        self.publish();
        r
    }

    fn receive_bridged_token(
        &mut self,
        source_chain: u64,
        original_token_id: u64,
        recipient: AccountId,
    ) -> Result<(), Error> {
        let r = self.inner.receive_bridged_token(
            self.caller(),
            self.now(),
            source_chain,
            original_token_id,
            recipient,
        );
        self.publish();
        r
    }

    fn add_bridge_operator(&mut self, operator: AccountId) -> Result<(), Error> {
        self.inner.add_bridge_operator(self.caller(), operator)
    }

    fn remove_bridge_operator(&mut self, operator: AccountId) -> Result<(), Error> {
        self.inner.remove_bridge_operator(self.caller(), operator)
    }

    fn total_supply(&self) -> u64 {
        self.inner.total_supply()
    }

    fn current_token_id(&self) -> u64 {
        self.inner.current_token_id()
    }

    fn admin(&self) -> AccountId {
        self.inner.admin()
    }
}

/// The property registry as a host would run it.
struct PropertyRegistry {
    inner: propchain::registry::PropertyRegistry,
    env: Env,
}

impl PropertyRegistry {
    fn new(env: &Env) -> Self {
        PropertyRegistry {
            inner: propchain::registry::PropertyRegistry::new(env.caller.get(), env.timestamp.get(), 0),
            env: env.clone(),
        }
    }

    fn register_property(
        &mut self,
        metadata: PropertyMetadata,
    ) -> Result<u64, propchain::registry::Error> {
        self.inner.register_property(self.env.caller.get(), self.env.timestamp.get(), 0, metadata)
    }

    fn property_count(&self) -> u64 {
        self.inner.property_count()
    }

    fn get_property(&self, property_id: u64) -> Option<PropertyInfo> {
        self.inner.get_property(property_id)
    }
}

fn hex(account: AccountId) -> String {
    account.bytes.iter().map(|b| format!("{:02x}", b)).collect()
}

#[test]
fn test_constructor_works() {
    let env = Env::new();
    let contract = PropertyToken::new(&env);
    assert_eq!(contract.total_supply(), 0);
    assert_eq!(contract.current_token_id(), 0);
}

#[test]
fn lib_test_register_property_with_token() {
    let env = Env::new();
    let mut contract = PropertyToken::new(&env);

    let metadata = PropertyMetadata {
        location: String::from("123 Main St"),
        size: 1000,
        legal_description: String::from("Sample property"),
        valuation: 500000,
        documents_url: String::from("ipfs://sample-docs"),
    };

    let result = contract.register_property_with_token(metadata.clone());
    assert!(result.is_ok());

    let token_id = result.unwrap();
    assert_eq!(token_id, 1);
    assert_eq!(contract.total_supply(), 1);
}

#[test]
fn test_balance_of() {
    let env = Env::new();
    let mut contract = PropertyToken::new(&env);

    let metadata = PropertyMetadata {
        location: String::from("123 Main St"),
        size: 1000,
        legal_description: String::from("Sample property"),
        valuation: 500000,
        documents_url: String::from("ipfs://sample-docs"),
    };

    let token_id = contract.register_property_with_token(metadata).unwrap();
    let caller = AccountId::from([1u8; 32]);

    // Set up mock caller for the test
    let accounts = default_accounts();
    env.set_caller(accounts.alice);

    assert_eq!(contract.balance_of(accounts.alice), 1);
}

#[test]
fn lib_test_attach_legal_document() {
    let env = Env::new();
    let mut contract = PropertyToken::new(&env);

    let metadata = PropertyMetadata {
        location: String::from("123 Main St"),
        size: 1000,
        legal_description: String::from("Sample property"),
        valuation: 500000,
        documents_url: String::from("ipfs://sample-docs"),
    };

    let token_id = contract.register_property_with_token(metadata).unwrap();

    let accounts = default_accounts();
    env.set_caller(accounts.alice);

    let doc_hash = propchain::primitives::Hash::from([1u8; 32]);
    let doc_type = String::from("Deed");

    let result = contract.attach_legal_document(token_id, doc_hash, doc_type);
    assert!(result.is_ok());
}

#[test]
fn lib_test_verify_compliance() {
    let env = Env::new();
    let mut contract = PropertyToken::new(&env);

    let metadata = PropertyMetadata {
        location: String::from("123 Main St"),
        size: 1000,
        legal_description: String::from("Sample property"),
        valuation: 500000,
        documents_url: String::from("ipfs://sample-docs"),
    };

    let token_id = contract.register_property_with_token(metadata).unwrap();

    let accounts = default_accounts();
    env.set_caller(contract.admin());

    let result = contract.verify_compliance(token_id, true);
    assert!(result.is_ok());

    let compliance_info = contract.get_compliance(token_id).unwrap();
    assert!(compliance_info.verified);
}

#[test]
fn test_property_token_creation() {
    let env = Env::new();
    let accounts = default_accounts();
    env.set_caller(accounts.alice);

    let contract = PropertyToken::new(&env);
    assert_eq!(contract.total_supply(), 0);
    assert_eq!(contract.current_token_id(), 0);
    assert_eq!(contract.admin(), accounts.alice);
}

#[test]
fn property_token_tests_test_register_property_with_token() {
    let env = Env::new();
    let accounts = default_accounts();
    env.set_caller(accounts.alice);

    let mut contract = PropertyToken::new(&env);

    let metadata = PropertyMetadata {
        location: String::from("123 Main St"),
        size: 1000,
        legal_description: String::from("Sample property"),
        valuation: 500000,
        documents_url: String::from("ipfs://sample-docs"),
    };

    let result = contract.register_property_with_token(metadata.clone());
    assert!(result.is_ok());

    let token_id = result.unwrap();
    assert_eq!(token_id, 1);
    assert_eq!(contract.total_supply(), 1);

    // Check ownership
    assert_eq!(contract.owner_of(1), Some(accounts.alice));
    assert_eq!(contract.balance_of(accounts.alice), 1);
}

#[test]
fn test_erc721_transfer() {
    let env = Env::new();
    let accounts = default_accounts();
    env.set_caller(accounts.alice);

    let mut contract = PropertyToken::new(&env);

    let metadata = PropertyMetadata {
        location: String::from("123 Main St"),
        size: 1000,
        legal_description: String::from("Sample property"),
        valuation: 500000,
        documents_url: String::from("ipfs://sample-docs"),
    };

    let token_id = contract.register_property_with_token(metadata).unwrap();

    // Transfer token to bob
    env.set_caller(accounts.alice);
    let result = contract.transfer_from(accounts.alice, accounts.bob, token_id);
    assert!(result.is_ok());

    // Verify new ownership
    assert_eq!(contract.owner_of(token_id), Some(accounts.bob));
    assert_eq!(contract.balance_of(accounts.alice), 0);
    assert_eq!(contract.balance_of(accounts.bob), 1);
}

#[test]
fn test_approve_and_transfer_from() {
    let env = Env::new();
    let accounts = default_accounts();
    env.set_caller(accounts.alice);

    let mut contract = PropertyToken::new(&env);

    let metadata = PropertyMetadata {
        location: String::from("123 Main St"),
        size: 1000,
        legal_description: String::from("Sample property"),
        valuation: 500000,
        documents_url: String::from("ipfs://sample-docs"),
    };

    let token_id = contract.register_property_with_token(metadata).unwrap();

    // Alice approves Bob to transfer the token
    let result = contract.approve(accounts.bob, token_id);
    assert!(result.is_ok());

    // Verify approval
    assert_eq!(contract.get_approved(token_id), Some(accounts.bob));

    // Bob transfers the token to Charlie (Bob acts as the caller)
    env.set_caller(accounts.bob);
    let result = contract.transfer_from(accounts.alice, accounts.charlie, token_id);
    assert!(result.is_ok());

    // Verify new ownership
    assert_eq!(contract.owner_of(token_id), Some(accounts.charlie));
}

#[test]
fn property_token_tests_test_attach_legal_document() {
    let env = Env::new();
    let accounts = default_accounts();
    env.set_caller(accounts.alice);

    let mut contract = PropertyToken::new(&env);

    let metadata = PropertyMetadata {
        location: String::from("123 Main St"),
        size: 1000,
        legal_description: String::from("Sample property"),
        valuation: 500000,
        documents_url: String::from("ipfs://sample-docs"),
    };

    let token_id = contract.register_property_with_token(metadata).unwrap();

    // Attach a legal document
    let doc_hash = propchain::primitives::Hash::from([1u8; 32]);
    let doc_type = String::from("Deed");

    let result = contract.attach_legal_document(token_id, doc_hash, doc_type.clone());
    assert!(result.is_ok());

    // Note: We can't directly test the document was stored because
    // legal_documents mapping is private. The test verifies the function executes without error.
}

#[test]
fn property_token_tests_test_verify_compliance() {
    let env = Env::new();
    let accounts = default_accounts();
    env.set_caller(accounts.alice);

    let mut contract = PropertyToken::new(&env);

    let metadata = PropertyMetadata {
        location: String::from("123 Main St"),
        size: 1000,
        legal_description: String::from("Sample property"),
        valuation: 500000,
        documents_url: String::from("ipfs://sample-docs"),
    };

    let token_id = contract.register_property_with_token(metadata).unwrap();

    // Verify compliance (admin is alice in this test)
    let result = contract.verify_compliance(token_id, true);
    assert!(result.is_ok());

    // Note: We can't directly test the compliance status was updated because
    // compliance_flags mapping is private. The test verifies the function executes without error.
}

#[test]
fn test_erc1155_batch_operations() {
    let env = Env::new();
    let accounts = default_accounts();
    env.set_caller(accounts.alice);

    let mut contract = PropertyToken::new(&env);

    let metadata = PropertyMetadata {
        location: String::from("123 Main St"),
        size: 1000,
        legal_description: String::from("Sample property"),
        valuation: 500000,
        documents_url: String::from("ipfs://sample-docs"),
    };

    // Register two properties
    let token_id1 = contract.register_property_with_token(metadata.clone()).unwrap();
    let token_id2 = contract.register_property_with_token(metadata).unwrap();

    // Test balance_of_batch
    let accounts_vec = vec![accounts.alice, accounts.alice];
    let ids_vec = vec![token_id1, token_id2];
    let balances = contract.balance_of_batch(accounts_vec, ids_vec);

    assert_eq!(balances.len(), 2);
    assert_eq!(balances[0], 1);
    assert_eq!(balances[1], 1);
}

#[test]
fn test_uri_function() {
    let env = Env::new();
    let accounts = default_accounts();
    env.set_caller(accounts.alice);

    let mut contract = PropertyToken::new(&env);

    let metadata = PropertyMetadata {
        location: String::from("123 Main St"),
        size: 1000,
        legal_description: String::from("Sample property"),
        valuation: 500000,
        documents_url: String::from("ipfs://sample-docs"),
    };

    let token_id = contract.register_property_with_token(metadata).unwrap();

    let uri_result = contract.uri(token_id);
    assert!(uri_result.is_some());

    let uri = uri_result.unwrap();
    assert!(uri.contains(&hex(contract.account_id())));
    assert!(uri.contains(&format!("{}", token_id)));
}

#[test]
fn test_bridge_operator_management() {
    let env = Env::new();
    let accounts = default_accounts();
    env.set_caller(accounts.alice);

    let mut contract = PropertyToken::new(&env);

    // Initially, alice should be a bridge operator (as admin)
    assert_eq!(contract.admin(), accounts.alice);

    // Add a new bridge operator
    let result = contract.add_bridge_operator(accounts.bob);
    assert!(result.is_ok());

    // Note: We can't directly test if bob was added as an operator because
    // bridge_operators vector is private. The test verifies the function executes without error.
}

#[test]
fn test_get_ownership_history() {
    let env = Env::new();
    let accounts = default_accounts();
    env.set_caller(accounts.alice);

    let mut contract = PropertyToken::new(&env);

    let metadata = PropertyMetadata {
        location: String::from("123 Main St"),
        size: 1000,
        legal_description: String::from("Sample property"),
        valuation: 500000,
        documents_url: String::from("ipfs://sample-docs"),
    };

    let token_id = contract.register_property_with_token(metadata).unwrap();

    // Get ownership history
    let history = contract.get_ownership_history(token_id);
    assert!(history.is_some());

    // The history should contain at least the initial minting record
    let history_vec = history.unwrap();
    assert!(!history_vec.is_empty());
}

#[test]
fn test_bridge_to_chain() {
    let env = Env::new();
    let accounts = default_accounts();
    env.set_caller(accounts.alice);

    let mut contract = PropertyToken::new(&env);

    let metadata = PropertyMetadata {
        location: String::from("123 Main St"),
        size: 1000,
        legal_description: String::from("Sample property"),
        valuation: 500000,
        documents_url: String::from("ipfs://sample-docs"),
    };

    let token_id = contract.register_property_with_token(metadata).unwrap();

    // First verify the token for compliance
    env.set_caller(accounts.alice); // admin
    let result = contract.verify_compliance(token_id, true);
    assert!(result.is_ok());

    // Now bridge the token
    env.set_caller(accounts.alice); // token owner
    let result = contract.bridge_to_chain(2, token_id, accounts.bob); // chain ID 2
    assert!(result.is_ok());

    // After bridging, the token should be locked (owned by zero address)
    let zero_address = AccountId::from([0u8; 32]);
    // Note: This test depends on internal implementation details
}

#[test]
fn test_receive_bridged_token() {
    let env = Env::new();
    let accounts = default_accounts();
    env.set_caller(accounts.alice);

    let mut contract = PropertyToken::new(&env);

    // Add bob as a bridge operator
    let result = contract.add_bridge_operator(accounts.bob);
    assert!(result.is_ok());

    // Bob receives a bridged token
    env.set_caller(accounts.bob);
    let result = contract.receive_bridged_token(2, 1, accounts.charlie); // source chain 2, token 1
    assert!(result.is_ok());
}

#[test]
fn test_error_conditions() {
    let env = Env::new();
    let accounts = default_accounts();
    env.set_caller(accounts.alice);

    let mut contract = PropertyToken::new(&env);

    // Test trying to transfer a non-existent token
    let result = contract.transfer_from(accounts.alice, accounts.bob, 999);
    assert_eq!(result, Err(Error::TokenNotFound));

    // Test trying to get owner of non-existent token
    assert_eq!(contract.owner_of(999), None);

    // Test trying to approve a non-existent token
    let result = contract.approve(accounts.bob, 999);
    assert_eq!(result, Err(Error::TokenNotFound));
}

#[test]
fn test_property_registry_integration() {
    let env = Env::new();
    let accounts = default_accounts();
    env.set_caller(accounts.alice);

    // Test the existing PropertyRegistry contract
    let mut registry = PropertyRegistry::new(&env);

    let metadata = PropertyMetadata {
        location: String::from("123 Registry St"),
        size: 1500,
        legal_description: String::from("Registry test property"),
        valuation: 400000,
        documents_url: String::from("ipfs://registry-docs"),
    };

    let property_id = registry.register_property(metadata.clone()).unwrap();
    assert_eq!(property_id, 1);
    assert_eq!(registry.property_count(), 1);
}

#[test]
fn test_property_token_enhanced_features() {
    let env = Env::new();
    let accounts = default_accounts();
    env.set_caller(accounts.alice);

    // Test the new PropertyToken contract with enhanced features
    let mut token_contract = PropertyToken::new(&env);

    let metadata = PropertyMetadata {
        location: String::from("456 Token Ave"),
        size: 2000,
        legal_description: String::from("Token test property"),
        valuation: 500000,
        documents_url: String::from("ipfs://token-docs"),
    };

    let token_id = token_contract.register_property_with_token(metadata).unwrap();
    assert_eq!(token_id, 1);
    assert_eq!(token_contract.total_supply(), 1);

    // Test ERC-721 compatibility
    assert_eq!(token_contract.owner_of(token_id), Some(accounts.alice));
    assert_eq!(token_contract.balance_of(accounts.alice), 1);

    // Test legal document attachment
    let doc_hash = propchain::primitives::Hash::from([1u8; 32]);
    let attach_result = token_contract.attach_legal_document(token_id, doc_hash, String::from("Deed"));
    assert!(attach_result.is_ok());

    // Test compliance verification
    env.set_caller(token_contract.admin());
    let verify_result = token_contract.verify_compliance(token_id, true);
    assert!(verify_result.is_ok());
}

#[test]
fn test_migration_scenario() {
    let env = Env::new();
    let accounts = default_accounts();
    env.set_caller(accounts.alice);

    // Simulate migration from old registry to new token standard
    let mut old_registry = PropertyRegistry::new(&env);
    let mut new_token_contract = PropertyToken::new(&env);

    // Register property in old system
    let old_metadata = PropertyMetadata {
        location: String::from("Old System Property"),
        size: 1200,
        legal_description: String::from("Originally in old registry"),
        valuation: 350000,
        documents_url: String::from("ipfs://old-system"),
    };

    let old_property_id = old_registry.register_property(old_metadata.clone()).unwrap();

    // Migrate to new system by creating equivalent token
    // In a real migration, you'd copy the property data

    let new_metadata = PropertyMetadata {
        location: old_metadata.location,
        size: old_metadata.size,
        legal_description: old_metadata.legal_description,
        valuation: old_metadata.valuation,
        documents_url: old_metadata.documents_url,
    };

    let new_token_id = new_token_contract.register_property_with_token(new_metadata).unwrap();

    // Verify both exist in their respective systems
    assert!(old_registry.get_property(old_property_id).is_some());
    assert!(new_token_contract.owner_of(new_token_id).is_some());

    // Demonstrate enhanced features only available in new system
    let doc_hash = propchain::primitives::Hash::from([2u8; 32]);
    let attach_result = new_token_contract.attach_legal_document(new_token_id, doc_hash, String::from("Migration Document"));
    assert!(attach_result.is_ok());

    // Old system doesn't have this capability
    // This shows the value-add of the new token standard
}

#[test]
fn test_escrow_integration() {
    let env = Env::new();
    let accounts = default_accounts();
    env.set_caller(accounts.alice);

    // Test escrow functionality with property tokens
    let mut token_contract = PropertyToken::new(&env);

    let metadata = PropertyMetadata {
        location: String::from("Escrow Test Property"),
        size: 1800,
        legal_description: String::from("For escrow testing"),
        valuation: 450000,
        documents_url: String::from("ipfs://escrow-test"),
    };

    let token_id = token_contract.register_property_with_token(metadata).unwrap();

    // Verify compliance (required for advanced operations)
    env.set_caller(token_contract.admin());
    token_contract.verify_compliance(token_id, true).unwrap();

    // Test bridge operator functionality (similar to escrow operators)
    env.set_caller(token_contract.admin());
    let operator = accounts.bob;
    token_contract.add_bridge_operator(operator).unwrap();

    // Verify operator was added
    // Note: bridge_operators is private, but the function should execute without error

    println!("Escrow-like integration test completed successfully");
}

#[test]
fn test_batch_operations_efficiency() {
    let env = Env::new();
    let accounts = default_accounts();
    env.set_caller(accounts.alice);

    let mut token_contract = PropertyToken::new(&env);

    // Create multiple properties efficiently
    let properties_data = vec![
        ("Property 1", 1000u64, 300000u128),
        ("Property 2", 1500u64, 450000u128),
        ("Property 3", 2000u64, 600000u128),
    ];

    let mut token_ids = Vec::new();

    for (location, size, valuation) in properties_data {
        let metadata = PropertyMetadata {
            location: String::from(location),
            size,
            legal_description: String::from("Batch created property"),
            valuation,
            documents_url: String::from("ipfs://batch"),
        };

        let token_id = token_contract.register_property_with_token(metadata).unwrap();
        token_ids.push(token_id);
    }

    // Verify all properties were created
    assert_eq!(token_contract.total_supply(), 3);
    assert_eq!(token_ids.len(), 3);

    // Test batch balance query (ERC-1155)
    let accounts_vec = vec![accounts.alice, accounts.alice, accounts.alice];
    let ids_vec = token_ids.clone();
    let balances = token_contract.balance_of_batch(accounts_vec, ids_vec);

    assert_eq!(balances.len(), 3);
    assert_eq!(balances[0], 1);
    assert_eq!(balances[1], 1);
    assert_eq!(balances[2], 1);
}

#[test]
fn test_ownership_tracking() {
    let env = Env::new();
    let accounts = default_accounts();
    env.set_caller(accounts.alice);

    let mut token_contract = PropertyToken::new(&env);

    let metadata = PropertyMetadata {
        location: String::from("Tracking Test Property"),
        size: 1600,
        legal_description: String::from("Ownership tracking test"),
        valuation: 520000,
        documents_url: String::from("ipfs://tracking"),
    };

    let token_id = token_contract.register_property_with_token(metadata).unwrap();

    // Initial ownership history should have one entry (minting)
    let history = token_contract.get_ownership_history(token_id).unwrap();
    assert_eq!(history.len(), 1);
    assert_eq!(history[0].from, AccountId::from([0u8; 32])); // Zero address for minting
    assert_eq!(history[0].to, accounts.alice);

    // Transfer ownership and check history updates
    env.set_caller(accounts.alice);
    token_contract.transfer_from(accounts.alice, accounts.bob, token_id).unwrap();

    let updated_history = token_contract.get_ownership_history(token_id).unwrap();
    assert_eq!(updated_history.len(), 2);
    assert_eq!(updated_history[1].from, accounts.alice);
    assert_eq!(updated_history[1].to, accounts.bob);
}

#[test]
fn test_security_features() {
    let env = Env::new();
    let accounts = default_accounts();
    env.set_caller(accounts.alice);

    let mut token_contract = PropertyToken::new(&env);

    let metadata = PropertyMetadata {
        location: String::from("Security Test Property"),
        size: 1400,
        legal_description: String::from("Security features test"),
        valuation: 480000,
        documents_url: String::from("ipfs://security"),
    };

    let token_id = token_contract.register_property_with_token(metadata).unwrap();

    // Test unauthorized access prevention
    env.set_caller(accounts.bob); // Not the owner

    // Should fail - Bob can't transfer Alice's property
    let transfer_result = token_contract.transfer_from(accounts.alice, accounts.charlie, token_id);
    assert_eq!(transfer_result, Err(Error::Unauthorized));

    // Should fail - Bob can't attach documents to Alice's property
    let doc_hash = propchain::primitives::Hash::from([3u8; 32]);
    let attach_result = token_contract.attach_legal_document(token_id, doc_hash, String::from("Unauthorized Doc"));
    assert_eq!(attach_result, Err(Error::Unauthorized));

    // Should fail - Bob can't verify compliance
    let verify_result = token_contract.verify_compliance(token_id, true);
    assert_eq!(verify_result, Err(Error::Unauthorized));
}

#[test]
fn test_backward_compatibility() {
    let env = Env::new();
    let accounts = default_accounts();
    env.set_caller(accounts.alice);

    // Demonstrate that the new token standard maintains compatibility
    // with existing ERC-721 expectations

    let mut token_contract = PropertyToken::new(&env);

    let metadata = PropertyMetadata {
        location: String::from("Compatibility Test"),
        size: 1300,
        legal_description: String::from("Backward compatibility test"),
        valuation: 420000,
        documents_url: String::from("ipfs://compatibility"),
    };

    let token_id = token_contract.register_property_with_token(metadata).unwrap();

    // Standard ERC-721 operations should work
    assert_eq!(token_contract.balance_of(accounts.alice), 1);
    assert_eq!(token_contract.owner_of(token_id), Some(accounts.alice));
    assert_eq!(token_contract.get_approved(token_id), None);

    // Test approval system
    token_contract.approve(accounts.bob, token_id).unwrap();
    assert_eq!(token_contract.get_approved(token_id), Some(accounts.bob));

    // Test operator approvals
    token_contract.set_approval_for_all(accounts.charlie, true).unwrap();
    assert!(token_contract.is_approved_for_all(accounts.alice, accounts.charlie));
}

fn sample_metadata() -> PropertyMetadata {
    PropertyMetadata {
        location: String::from("1 Harbour Rd"),
        size: 800,
        legal_description: String::from("Lot 1"),
        valuation: 250000,
        documents_url: String::from("ipfs://lot-1"),
    }
}

fn zero() -> AccountId {
    AccountId::from([0u8; 32])
}

#[test]
fn history_is_stamped_with_the_hash_of_the_transfer() {
    let accounts = default_accounts();
    let mut token = propchain::token::PropertyToken::new(accounts.alice);
    let id = token.register_property_with_token(accounts.alice, 5, sample_metadata()).unwrap();
    token.transfer_from(accounts.alice, 6, accounts.alice, accounts.bob, id).unwrap();
    let history = token.get_ownership_history(id).unwrap();
    assert_eq!(history.len(), 2);
    assert_eq!((history[0].from, history[0].to, history[0].timestamp), (zero(), accounts.alice, 5));
    assert_eq!((history[1].from, history[1].to, history[1].timestamp), (accounts.alice, accounts.bob, 6));
    assert_eq!(
        hex(AccountId::from(history[0].transaction_hash.bytes)),
        "af3c11cee58a4711f9eb9b1585298b94339f204f99094992b18e653a8c23fca1"
    );
    assert_eq!(
        hex(AccountId::from(history[1].transaction_hash.bytes)),
        "42a48beeb0e15dbe489a29d746595924daff9535a725d57eed0a17630f003060"
    );
    let mut expected = [0u8; 32];
    ink::env::hash_encoded::<ink::env::hash::Blake2x256, _>(
        &(accounts.alice.bytes, accounts.bob.bytes, id),
        &mut expected,
    );
    assert_eq!(history[1].transaction_hash.bytes, expected);
}

#[test]
fn a_given_stamp_is_recorded_as_it_is() {
    let accounts = default_accounts();
    let mut token = propchain::token::PropertyToken::new(accounts.alice);
    let stamp = propchain::primitives::Hash::from([9u8; 32]);
    let id = token
        .register_property_with_token_stamped(accounts.bob, 5, sample_metadata(), stamp)
        .unwrap();
    assert_eq!(id, 1);
    let other = propchain::primitives::Hash::from([8u8; 32]);
    token
        .transfer_from_stamped(accounts.bob, 6, accounts.bob, accounts.charlie, id, other)
        .unwrap();
    let history = token.get_ownership_history(id).unwrap();
    assert_eq!(history[0].transaction_hash, stamp);
    assert_eq!(history[1].transaction_hash, other);
    assert_eq!(token.owner_of(id), Some(accounts.charlie));
    assert_eq!(token.balance_of(accounts.bob), 0);
    assert_eq!(token.balance_of(accounts.charlie), 1);
    assert_eq!(token.get_approved(id), None);
}

#[test]
fn transfer_refusals() {
    let accounts = default_accounts();
    let env = Env::new();
    let mut token = PropertyToken::new(&env);
    let id = token.register_property_with_token(sample_metadata()).unwrap();
    assert_eq!(token.transfer_from(accounts.bob, accounts.charlie, id), Err(Error::Unauthorized));
    env.set_caller(accounts.bob);
    assert_eq!(token.transfer_from(accounts.alice, accounts.charlie, id), Err(Error::Unauthorized));
    assert_eq!(token.approve(accounts.bob, id), Err(Error::Unauthorized));
    env.set_caller(accounts.alice);
    token.set_approval_for_all(accounts.bob, true).unwrap();
    env.set_caller(accounts.bob);
    assert_eq!(token.approve(accounts.charlie, id), Ok(()));
    assert_eq!(token.get_approved(id), Some(accounts.charlie));
    env.set_caller(accounts.charlie);
    assert_eq!(token.transfer_from(accounts.alice, accounts.charlie, id), Ok(()));
    assert_eq!(token.owner_of(id), Some(accounts.charlie));
    assert_eq!(token.get_approved(id), None);
    env.set_caller(accounts.bob);
    assert_eq!(token.transfer_from(accounts.alice, accounts.bob, id), Err(Error::Unauthorized));
    env.set_caller(accounts.alice);
    token.set_approval_for_all(accounts.bob, false).unwrap();
    assert!(!token.is_approved_for_all(accounts.alice, accounts.bob));
    let events = env.events.borrow().clone();
    assert_eq!(events.len(), 5);
    assert!(matches!(&events[0], Event::PropertyTokenMinted(e) if e.token_id == 1 && e.property_id == 1));
    assert!(matches!(&events[1], Event::ApprovalForAll(e) if e.owner == accounts.alice && e.approved));
    assert!(matches!(&events[2], Event::Approval(e) if e.owner == accounts.alice && e.spender == accounts.charlie));
    assert!(matches!(&events[3], Event::Transfer(e) if e.from == Some(accounts.alice) && e.to == Some(accounts.charlie) && e.id == 1));
    assert!(matches!(&events[4], Event::ApprovalForAll(e) if e.operator == accounts.bob && !e.approved));
}

#[test]
fn batch_transfers_move_every_amount_or_none() {
    let accounts = default_accounts();
    let env = Env::new();
    let mut token = PropertyToken::new(&env);
    let first = token.register_property_with_token(sample_metadata()).unwrap();
    let second = token.register_property_with_token(sample_metadata()).unwrap();
    let balances = |token: &PropertyToken| {
        token.balance_of_batch(
            vec![accounts.alice, accounts.alice, accounts.bob, accounts.bob, accounts.bob],
            vec![first, second, first, second],
        )
    };
    assert_eq!(balances(&token), vec![1, 1, 0, 0, 0]);

    assert_eq!(
        token.safe_batch_transfer_from(accounts.alice, accounts.bob, vec![first, second], vec![1, 2], vec![]),
        Err(Error::Unauthorized)
    );
    assert_eq!(balances(&token), vec![1, 1, 0, 0, 0]);
    assert_eq!(
        token.safe_batch_transfer_from(accounts.alice, accounts.bob, vec![first], vec![1, 1], vec![]),
        Err(Error::Unauthorized)
    );
    assert_eq!(
        token.safe_batch_transfer_from(accounts.alice, accounts.bob, vec![first, first], vec![1, 1], vec![]),
        Err(Error::Unauthorized)
    );
    assert_eq!(balances(&token), vec![1, 1, 0, 0, 0]);
    env.set_caller(accounts.bob);
    assert_eq!(
        token.safe_batch_transfer_from(accounts.alice, accounts.bob, vec![first], vec![1], vec![]),
        Err(Error::Unauthorized)
    );
    env.set_caller(accounts.alice);
    env.events.borrow_mut().clear();
    assert_eq!(
        token.safe_batch_transfer_from(
            accounts.alice,
            accounts.bob,
            vec![first, second, first],
            vec![1, 1, 0],
            vec![1, 2, 3],
        ),
        Ok(())
    );
    assert_eq!(balances(&token), vec![0, 0, 1, 1, 0]);
    assert_eq!(env.events.borrow().len(), 3);
    assert_eq!(
        token.safe_batch_transfer_from(accounts.bob, accounts.bob, vec![], vec![], vec![]),
        Err(Error::Unauthorized)
    );
    env.set_caller(accounts.bob);
    assert_eq!(
        token.safe_batch_transfer_from(accounts.bob, accounts.bob, vec![first], vec![1], vec![]),
        Ok(())
    );
    assert_eq!(balances(&token), vec![0, 0, 1, 1, 0]);
    assert_eq!(token.owner_of(first), Some(accounts.alice));
}

#[test]
fn uri_is_exact() {
    let accounts = default_accounts();
    let mut token = propchain::token::PropertyToken::new(accounts.alice);
    assert_eq!(token.uri(accounts.bob, 1), None);
    token.register_property_with_token(accounts.alice, 0, sample_metadata()).unwrap();
    assert_eq!(
        token.uri(accounts.bob, 1),
        Some(format!("ipfs://property/{}/1/metadata.json", "02".repeat(32)))
    );
    assert_eq!(token.uri(accounts.bob, 0), None);
    assert_eq!(token.uri(accounts.bob, 2), None);
}

#[test]
fn bridging_locks_the_token() {
    let accounts = default_accounts();
    let env = Env::new();
    let mut token = PropertyToken::new(&env);
    let id = token.register_property_with_token(sample_metadata()).unwrap();
    assert_eq!(token.bridge_to_chain(2, 9, accounts.bob), Err(Error::TokenNotFound));
    assert_eq!(token.bridge_to_chain(2, id, accounts.bob), Err(Error::ComplianceFailed));
    env.set_caller(accounts.bob);
    assert_eq!(token.bridge_to_chain(2, id, accounts.bob), Err(Error::Unauthorized));
    assert_eq!(token.verify_compliance(id, true), Err(Error::Unauthorized));
    env.set_caller(accounts.alice);
    assert_eq!(token.verify_compliance(9, true), Err(Error::TokenNotFound));
    env.timestamp.set(40);
    token.verify_compliance(id, true).unwrap();
    let compliance = token.get_compliance(id).unwrap();
    assert!(compliance.verified);
    assert_eq!(compliance.verification_date, 40);
    assert_eq!(compliance.verifier, accounts.alice);
    assert_eq!(compliance.compliance_type, "KYC");

    env.timestamp.set(50);
    assert_eq!(token.bridge_to_chain(2, id, accounts.bob), Ok(()));
    assert_eq!(token.owner_of(id), Some(zero()));
    assert_eq!(token.balance_of_batch(vec![accounts.alice], vec![id]), vec![0]);
    assert_eq!(token.balance_of(accounts.alice), 1);
    let info = token.inner.get_bridged_token(2, id).unwrap();
    assert_eq!(info.original_chain, 1);
    assert_eq!(info.original_token_id, id);
    assert_eq!(info.destination_chain, 2);
    assert_eq!(info.destination_token_id, id);
    assert_eq!(info.bridged_at, 50);
    assert_eq!(info.status, propchain::token::BridgingStatus::Locked);
    assert_eq!(token.inner.get_bridged_token(3, id), None);
    assert_eq!(token.bridge_to_chain(2, id, accounts.bob), Err(Error::Unauthorized));

    env.timestamp.set(60);
    assert_eq!(token.receive_bridged_token(2, id, accounts.charlie), Ok(()));
    assert_eq!(token.total_supply(), 2);
    assert_eq!(token.owner_of(2), Some(accounts.charlie));
    assert_eq!(token.balance_of(accounts.charlie), 1);
    assert_eq!(token.balance_of_batch(vec![accounts.charlie], vec![2]), vec![1]);
    let done = token.inner.get_bridged_token(2, id).unwrap();
    assert_eq!(done.status, propchain::token::BridgingStatus::Completed);
    assert_eq!(done.destination_token_id, 2);
    assert!(token.get_compliance(2).unwrap().verified);
    assert_eq!(token.get_compliance(2).unwrap().compliance_type, "KYC");
    let history = token.get_ownership_history(2).unwrap();
    assert_eq!((history[0].from, history[0].to, history[0].timestamp), (zero(), accounts.charlie, 60));
}

#[test]
fn a_token_from_elsewhere_gets_a_stand_in_record() {
    let accounts = default_accounts();
    let env = Env::new();
    let mut token = PropertyToken::new(&env);
    env.set_caller(accounts.bob);
    assert_eq!(token.receive_bridged_token(2, 7, accounts.charlie), Err(Error::Unauthorized));
    env.set_caller(accounts.alice);
    env.timestamp.set(70);
    assert_eq!(token.receive_bridged_token(2, 7, accounts.charlie), Ok(()));
    assert_eq!(token.current_token_id(), 1);
    let compliance = token.get_compliance(1).unwrap();
    assert!(compliance.verified);
    assert_eq!(compliance.compliance_type, "Bridge");
    assert_eq!(compliance.verifier, accounts.alice);
    assert_eq!(compliance.verification_date, 70);
    assert_eq!(token.inner.get_bridged_token(2, 7), None);
    let history = token.get_ownership_history(1).unwrap();
    assert_eq!(
        hex(AccountId::from(history[0].transaction_hash.bytes)),
        "310580b1ca3897ba8e986dc61b39e27e4631cdb09fa10c32a0dd2d763a75be41"
    );
    let events = env.events.borrow().clone();
    assert!(matches!(&events[0], Event::Transfer(e) if e.from == None && e.to == Some(accounts.charlie) && e.id == 1));
}

#[test]
fn bridge_operators_are_kept_without_repeats() {
    let accounts = default_accounts();
    let env = Env::new();
    let mut token = PropertyToken::new(&env);
    assert!(token.inner.is_bridge_operator(accounts.alice));
    env.set_caller(accounts.bob);
    assert_eq!(token.add_bridge_operator(accounts.bob), Err(Error::Unauthorized));
    assert_eq!(token.remove_bridge_operator(accounts.alice), Err(Error::Unauthorized));
    env.set_caller(accounts.alice);
    token.add_bridge_operator(accounts.bob).unwrap();
    token.add_bridge_operator(accounts.bob).unwrap();
    assert!(token.inner.is_bridge_operator(accounts.bob));
    token.remove_bridge_operator(accounts.bob).unwrap();
    assert!(!token.inner.is_bridge_operator(accounts.bob));
    assert!(token.inner.is_bridge_operator(accounts.alice));
    token.remove_bridge_operator(accounts.charlie).unwrap();
    token.remove_bridge_operator(accounts.alice).unwrap();
    assert!(!token.inner.is_bridge_operator(accounts.alice));
    let id = token.register_property_with_token(sample_metadata()).unwrap();
    assert_eq!(token.verify_compliance(id, true), Ok(()));
}

#[test]
fn documents_are_attached_by_the_owner() {
    let accounts = default_accounts();
    let env = Env::new();
    let mut token = PropertyToken::new(&env);
    let id = token.register_property_with_token(sample_metadata()).unwrap();
    let doc = propchain::primitives::Hash::from([4u8; 32]);
    assert_eq!(token.attach_legal_document(9, doc, String::from("Deed")), Err(Error::TokenNotFound));
    env.set_caller(accounts.bob);
    assert_eq!(token.attach_legal_document(id, doc, String::from("Deed")), Err(Error::Unauthorized));
    env.set_caller(accounts.alice);
    env.events.borrow_mut().clear();
    assert_eq!(token.attach_legal_document(id, doc, String::from("Deed")), Ok(()));
    let events = env.events.borrow().clone();
    assert_eq!(events.len(), 1);
    assert!(matches!(&events[0], Event::LegalDocumentAttached(e) if e.token_id == id && e.document_hash == doc && e.document_type == "Deed"));
}
