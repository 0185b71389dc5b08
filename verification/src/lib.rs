pub mod create_saga;
pub mod elements;
pub mod error;
pub mod join_saga;
pub mod organization_permission;
pub mod permission;
pub mod read_flows;
pub mod requests;
pub mod storage_flows;
pub mod store_model;
mod text;
pub mod validation;

pub use elements::default_user;
pub use elements::self_service_permissions;
pub use elements::unix_now_seconds;
pub use elements::Invitation;
pub use elements::InvitationV;
pub use elements::Organization;
pub use elements::OrganizationRoot;
pub use elements::OrganizationRootV;
pub use elements::OrganizationV;
pub use elements::User;
pub use elements::UserOrganization;
pub use elements::UserOrganizationV;
pub use elements::UserV;
pub use error::Error;
pub use error::ErrorKind;
pub use error::ErrorV;
pub use requests::InvitationStorageAction;
pub use requests::LogicRequest;
pub use requests::OrganizationLogicAction;
pub use requests::OrganizationRootLogicAction;
pub use requests::OrganizationRootStorageAction;
pub use requests::OrganizationStorageAction;
pub use requests::ReplyV;
pub use requests::StorageReply;
pub use requests::StorageRequest;
pub use requests::UserLogicAction;
pub use requests::UserStorageAction;
pub use validation::country_code_accepted;
pub use validation::get_code_if_valid;
pub use validation::get_organization_if_exists;
pub use validation::has_user_no_organization;
pub use validation::is_country_code_valid;
pub use validation::is_name_already_used;
pub use validation::is_telephone_being_used;
pub use validation::is_telephone_valid;
pub use validation::result_view;
pub use validation::spec_telephone_valid;
pub use validation::telephone_accepted;
pub use validation::telephone_without_plus_is_invalid;
pub use permission::Permission;
pub use organization_permission::OrganizationPermission;
pub use create_saga::CreateOrganizationSaga;
pub use create_saga::CreateSagaV;
pub use create_saga::CreateState;
pub use create_saga::CreateStateV;
pub use create_saga::rollback_returns_membership_error;
pub use join_saga::JoinOrganizationSaga;
pub use join_saga::JoinSagaV;
pub use join_saga::JoinState;
pub use join_saga::JoinStateV;
pub use join_saga::expired_invitation_is_left_in_place;
pub use read_flows::read_organization_root;
pub use read_flows::read_user;
pub use storage_flows::check_object_id;
pub use storage_flows::is_object_id;
pub use storage_flows::object_id_accepted;
pub use storage_flows::InsertOutcome;
pub use storage_flows::OrganizationCreateFlow;
pub use storage_flows::OrganizationRootFlow;
pub use storage_flows::UserCreateFlow;
pub use store_model::committed_organization_is_found;
pub use store_model::create_against_store_sees_name_taken;
pub use store_model::find_user_by_id;
pub use store_model::deleted_organization_is_gone;
pub use store_model::find_organization_by_id;
pub use store_model::find_organization_by_name;
pub use store_model::rollback_leaves_no_organization;
pub use store_model::second_create_sees_name_taken;
pub use store_model::StoreModel;
