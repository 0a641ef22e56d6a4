use valdraegorn::entities::role::Role;
use valdraegorn::entities::user::{User, UserStatus};
use valdraegorn::errors::DomainError;
use valdraegorn::use_cases::assign_role::{
    AssignRoleAction, AssignRoleEvent, AssignRoleInput, AssignRoleUseCase,
};
use valdraegorn::use_cases::authenticate_user::{
    AuthenticateUserAction, AuthenticateUserEvent, AuthenticateUserInput, AuthenticateUserOutput,
    AuthenticateUserUseCase,
};
use valdraegorn::use_cases::create_tenant::{
    CreateTenantAction, CreateTenantEvent, CreateTenantInput, CreateTenantOutput,
    CreateTenantUseCase,
};
use valdraegorn::use_cases::refresh_token::{
    RefreshTokenAction, RefreshTokenEvent, RefreshTokenInput, RefreshTokenOutput,
    RefreshTokenUseCase,
};
use valdraegorn::use_cases::register_user::{
    RegisterUserAction, RegisterUserEvent, RegisterUserInput, RegisterUserOutput,
    RegisterUserUseCase,
};
use valdraegorn::value_objects::Email;

fn register_input(email: &str, password: &str) -> RegisterUserInput {
    RegisterUserInput {
        tenant_id: 11,
        email: email.to_string(),
        display_name: "Ana".to_string(),
        password_plaintext: password.to_string(),
    }
}

#[test]
fn registration_stores_the_hash_only() {
    let (uc, action) = RegisterUserUseCase::start(register_input(" Ana@Acme.PE ", "s3cret-pass"));
    match action {
        RegisterUserAction::FindUserByEmail { tenant_id, email } => {
            assert_eq!(tenant_id, 11);
            assert_eq!(email.value(), "ana@acme.pe");
        }
        other => panic!("unexpected {:?}", other),
    }
    let (uc, action) = uc.resume(RegisterUserEvent::UserLookedUp(Ok(None)));
    match action {
        RegisterUserAction::HashPassword { password } => assert_eq!(password, "s3cret-pass"),
        other => panic!("unexpected {:?}", other),
    }
    let (uc, action) = uc.resume(RegisterUserEvent::PasswordHashed(Ok("HASH".to_string())));
    let user_id = match action {
        RegisterUserAction::SaveUser { user } => {
            assert_eq!(user.password_hash, "HASH");
            assert_eq!(user.email.value(), "ana@acme.pe");
            assert_eq!(user.tenant_id, 11);
            assert_eq!(user.display_name, "Ana");
            assert_eq!(user.status, UserStatus::Active);
            user.id
        }
        other => panic!("unexpected {:?}", other),
    };
    let (_, action) = uc.resume(RegisterUserEvent::UserSaved(Ok(())));
    match action {
        RegisterUserAction::Finish(r) => assert_eq!(r, Ok(RegisterUserOutput { user_id })),
        other => panic!("unexpected {:?}", other),
    }
}

#[test]
fn registration_rejects_invalid_email() {
    let (_, action) = RegisterUserUseCase::start(register_input("nope", "s3cret-pass"));
    match action {
        RegisterUserAction::Finish(r) => {
            assert_eq!(r, Err(DomainError::Validation("Invalid email: nope".to_string())))
        }
        other => panic!("unexpected {:?}", other),
    }
}

#[test]
fn registration_rejects_taken_email() {
    let (uc, _) = RegisterUserUseCase::start(register_input("Ana@acme.pe", "short"));
    let existing = User::new(11, Email::new("ana@acme.pe").unwrap(), "Ana", "h");
    let (_, action) = uc.resume(RegisterUserEvent::UserLookedUp(Ok(Some(existing))));
    match action {
        RegisterUserAction::Finish(r) => assert_eq!(
            r,
            Err(DomainError::Conflict(
                "Email 'Ana@acme.pe' already registered in this tenant".to_string()
            ))
        ),
        other => panic!("unexpected {:?}", other),
    }
}

#[test]
fn registration_rejects_short_password() {
    let (uc, _) = RegisterUserUseCase::start(register_input("ana@acme.pe", "1234567"));
    let (_, action) = uc.resume(RegisterUserEvent::UserLookedUp(Ok(None)));
    match action {
        RegisterUserAction::Finish(r) => assert_eq!(
            r,
            Err(DomainError::Validation("Password must be at least 8 characters".to_string()))
        ),
        other => panic!("unexpected {:?}", other),
    }
}

#[test]
fn registration_passes_on_storage_errors() {
    let (uc, _) = RegisterUserUseCase::start(register_input("ana@acme.pe", "12345678"));
    let (_, action) =
        uc.resume(RegisterUserEvent::UserLookedUp(Err(DomainError::Validation("db".to_string()))));
    match action {
        RegisterUserAction::Finish(r) => {
            assert_eq!(r, Err(DomainError::Validation("db".to_string())))
        }
        other => panic!("unexpected {:?}", other),
    }
}

fn active_user(hash: &str) -> User {
    User::new(21, Email::new("ana@acme.pe").unwrap(), "Ana", hash)
}

#[test]
fn sign_in_issues_both_tokens() {
    let input = AuthenticateUserInput {
        tenant_id: 21,
        email: "ANA@acme.pe".to_string(),
        password_plaintext: "pw".to_string(),
    };
    let (uc, action) = AuthenticateUserUseCase::start(input);
    assert!(matches!(action, AuthenticateUserAction::FindUserByEmail { tenant_id: 21, .. }));
    let user = active_user("HASH");
    let uid = user.id;
    let (uc, action) = uc.resume(AuthenticateUserEvent::UserLookedUp(Ok(Some(user))));
    match action {
        AuthenticateUserAction::VerifyPassword { password, hash } => {
            assert_eq!(password, "pw");
            assert_eq!(hash, "HASH");
        }
        other => panic!("unexpected {:?}", other),
    }
    let (uc, action) = uc.resume(AuthenticateUserEvent::PasswordVerified(Ok(true)));
    match action {
        AuthenticateUserAction::GenerateAccessToken { user_id, tenant_id } => {
            assert_eq!((user_id, tenant_id), (uid, 21))
        }
        other => panic!("unexpected {:?}", other),
    }
    let (uc, action) = uc.resume(AuthenticateUserEvent::AccessTokenGenerated(Ok("A".to_string())));
    assert!(matches!(action, AuthenticateUserAction::GenerateRefreshToken { .. }));
    let (_, action) = uc.resume(AuthenticateUserEvent::RefreshTokenGenerated(Ok("R".to_string())));
    match action {
        AuthenticateUserAction::Finish(r) => assert_eq!(
            r,
            Ok(AuthenticateUserOutput {
                user_id: uid,
                access_token: "A".to_string(),
                refresh_token: "R".to_string()
            })
        ),
        other => panic!("unexpected {:?}", other),
    }
}

fn sign_in_until_lookup() -> AuthenticateUserUseCase {
    let input = AuthenticateUserInput {
        tenant_id: 21,
        email: "ana@acme.pe".to_string(),
        password_plaintext: "pw".to_string(),
    };
    AuthenticateUserUseCase::start(input).0
}

#[test]
fn sign_in_of_unknown_user_is_unauthorized() {
    let (_, action) = sign_in_until_lookup().resume(AuthenticateUserEvent::UserLookedUp(Ok(None)));
    assert!(matches!(action, AuthenticateUserAction::Finish(Err(DomainError::Unauthorized))));
}

#[test]
fn sign_in_of_blocked_user_is_forbidden() {
    let mut user = active_user("HASH");
    user.status = UserStatus::Blocked;
    let (_, action) =
        sign_in_until_lookup().resume(AuthenticateUserEvent::UserLookedUp(Ok(Some(user))));
    match action {
        AuthenticateUserAction::Finish(r) => assert_eq!(
            r,
            Err(DomainError::Forbidden("User account is not active".to_string()))
        ),
        other => panic!("unexpected {:?}", other),
    }
}

#[test]
fn sign_in_with_wrong_password_is_unauthorized() {
    let (uc, _) = sign_in_until_lookup()
        .resume(AuthenticateUserEvent::UserLookedUp(Ok(Some(active_user("HASH")))));
    let (_, action) = uc.resume(AuthenticateUserEvent::PasswordVerified(Ok(false)));
    assert!(matches!(action, AuthenticateUserAction::Finish(Err(DomainError::Unauthorized))));
}

#[test]
fn tenant_creation_runs_to_completion() {
    let input = CreateTenantInput { slug: "Empresa-Peru-SAC".to_string(), name: "Empresa".to_string() };
    let (uc, action) = CreateTenantUseCase::start(input);
    match &action {
        CreateTenantAction::CheckSlugExists { slug } => assert_eq!(slug.value(), "empresa-peru-sac"),
        other => panic!("unexpected {:?}", other),
    }
    let (uc, action) = uc.resume(CreateTenantEvent::SlugChecked(Ok(false)));
    let tid = match action {
        CreateTenantAction::SaveTenant { tenant } => {
            assert_eq!(tenant.schema_name, "tenant_empresa_peru_sac");
            assert_eq!(tenant.name, "Empresa");
            assert!(tenant.is_active());
            tenant.id
        }
        other => panic!("unexpected {:?}", other),
    };
    let (_, action) = uc.resume(CreateTenantEvent::TenantSaved(Ok(())));
    match action {
        CreateTenantAction::Finish(r) => assert_eq!(
            r,
            Ok(CreateTenantOutput {
                tenant_id: tid,
                schema_name: "tenant_empresa_peru_sac".to_string()
            })
        ),
        other => panic!("unexpected {:?}", other),
    }
}

#[test]
fn tenant_creation_rejects_taken_slug() {
    let input = CreateTenantInput { slug: "Acme".to_string(), name: "Acme".to_string() };
    let (uc, _) = CreateTenantUseCase::start(input);
    let (_, action) = uc.resume(CreateTenantEvent::SlugChecked(Ok(true)));
    match action {
        CreateTenantAction::Finish(r) => assert_eq!(
            r,
            Err(DomainError::Conflict("Tenant with slug 'Acme' already exists".to_string()))
        ),
        other => panic!("unexpected {:?}", other),
    }
}

#[test]
fn tenant_creation_rejects_bad_slug() {
    let input = CreateTenantInput { slug: "-x".to_string(), name: "X".to_string() };
    let (_, action) = CreateTenantUseCase::start(input);
    match action {
        CreateTenantAction::Finish(r) => assert_eq!(
            r,
            Err(DomainError::Validation("Slug cannot start or end with a hyphen".to_string()))
        ),
        other => panic!("unexpected {:?}", other),
    }
}

const USER_ID: u128 = 0x550e8400e29b41d4a716446655440000;

#[test]
fn role_assignment_adds_the_role() {
    let input = AssignRoleInput { tenant_id: 1, user_id: USER_ID, role_id: 77 };
    let (uc, action) = AssignRoleUseCase::start(input);
    assert!(matches!(action, AssignRoleAction::FindUser { tenant_id: 1, user_id: USER_ID }));
    let user = User::new(1, Email::new("a@b.c").unwrap(), "A", "h");
    let (uc, action) = uc.resume(AssignRoleEvent::UserFound(Ok(Some(user))));
    assert!(matches!(action, AssignRoleAction::FindRole { tenant_id: 1, role_id: 77 }));
    let mut role = Role::new(1, "Ventas", "", None);
    role.id = 77;
    let (uc, action) = uc.resume(AssignRoleEvent::RoleFound(Ok(Some(role))));
    match action {
        AssignRoleAction::SaveUser { user } => assert_eq!(user.role_ids, vec![77]),
        other => panic!("unexpected {:?}", other),
    }
    let (_, action) = uc.resume(AssignRoleEvent::UserSaved(Ok(())));
    assert!(matches!(action, AssignRoleAction::Finish(Ok(()))));
}

#[test]
fn role_assignment_reports_missing_user_and_role() {
    let input = AssignRoleInput { tenant_id: 1, user_id: USER_ID, role_id: 77 };
    let (uc, _) = AssignRoleUseCase::start(input);
    let (_, action) = uc.resume(AssignRoleEvent::UserFound(Ok(None)));
    match action {
        AssignRoleAction::Finish(r) => assert_eq!(
            r,
            Err(DomainError::NotFound("User 550e8400-e29b-41d4-a716-446655440000".to_string()))
        ),
        other => panic!("unexpected {:?}", other),
    }
    let (uc, _) = AssignRoleUseCase::start(input);
    let user = User::new(1, Email::new("a@b.c").unwrap(), "A", "h");
    let (uc, _) = uc.resume(AssignRoleEvent::UserFound(Ok(Some(user))));
    let (_, action) = uc.resume(AssignRoleEvent::RoleFound(Ok(None)));
    match action {
        AssignRoleAction::Finish(r) => assert_eq!(
            r,
            Err(DomainError::NotFound("Role 00000000-0000-0000-0000-00000000004d".to_string()))
        ),
        other => panic!("unexpected {:?}", other),
    }
}

#[test]
fn role_of_another_tenant_is_forbidden() {
    let input = AssignRoleInput { tenant_id: 1, user_id: USER_ID, role_id: 77 };
    let (uc, _) = AssignRoleUseCase::start(input);
    let user = User::new(1, Email::new("a@b.c").unwrap(), "A", "h");
    let (uc, _) = uc.resume(AssignRoleEvent::UserFound(Ok(Some(user))));
    let role = Role::new(2, "Ventas", "", None);
    let (_, action) = uc.resume(AssignRoleEvent::RoleFound(Ok(Some(role))));
    match action {
        AssignRoleAction::Finish(r) => assert_eq!(
            r,
            Err(DomainError::Forbidden("Role does not belong to this tenant".to_string()))
        ),
        other => panic!("unexpected {:?}", other),
    }
}

#[test]
fn refresh_revokes_before_issuing() {
    let (uc, action) = RefreshTokenUseCase::start(RefreshTokenInput { refresh_token: "old".to_string() });
    match &action {
        RefreshTokenAction::ValidateRefreshToken { token } => assert_eq!(token, "old"),
        other => panic!("unexpected {:?}", other),
    }
    let (uc, action) = uc.resume(RefreshTokenEvent::Validated(Ok((5, 6))));
    match &action {
        RefreshTokenAction::RevokeRefreshToken { token } => assert_eq!(token, "old"),
        other => panic!("unexpected {:?}", other),
    }
    let (uc, action) = uc.resume(RefreshTokenEvent::Revoked(Ok(())));
    assert!(matches!(action, RefreshTokenAction::GenerateAccessToken { user_id: 5, tenant_id: 6 }));
    let (uc, action) = uc.resume(RefreshTokenEvent::AccessTokenGenerated(Ok("A2".to_string())));
    assert!(matches!(action, RefreshTokenAction::GenerateRefreshToken { user_id: 5, tenant_id: 6 }));
    let (_, action) = uc.resume(RefreshTokenEvent::RefreshTokenGenerated(Ok("R2".to_string())));
    match action {
        RefreshTokenAction::Finish(r) => assert_eq!(
            r,
            Ok(RefreshTokenOutput { access_token: "A2".to_string(), refresh_token: "R2".to_string() })
        ),
        other => panic!("unexpected {:?}", other),
    }
}

#[test]
fn refresh_with_invalid_token_issues_nothing() {
    let (uc, _) = RefreshTokenUseCase::start(RefreshTokenInput { refresh_token: "bad".to_string() });
    let (_, action) = uc.resume(RefreshTokenEvent::Validated(Err(DomainError::Unauthorized)));
    assert!(matches!(action, RefreshTokenAction::Finish(Err(DomainError::Unauthorized))));
}

#[test]
fn refresh_stops_when_revocation_fails() {
    let (uc, _) = RefreshTokenUseCase::start(RefreshTokenInput { refresh_token: "t".to_string() });
    let (uc, _) = uc.resume(RefreshTokenEvent::Validated(Ok((5, 6))));
    let (_, action) =
        uc.resume(RefreshTokenEvent::Revoked(Err(DomainError::Validation("db".to_string()))));
    assert!(matches!(action, RefreshTokenAction::Finish(Err(DomainError::Validation(_)))));
}

fn run_refresh(
    jwt: &mut valdraegorn::auth::jwt::JwtTokenService,
    token: &str,
) -> Result<RefreshTokenOutput, DomainError> {
    let (mut uc, mut action) =
        RefreshTokenUseCase::start(RefreshTokenInput { refresh_token: token.to_string() });
    loop {
        let event = match action {
            RefreshTokenAction::Finish(result) => return result,
            RefreshTokenAction::ValidateRefreshToken { token } => {
                RefreshTokenEvent::Validated(jwt.validate_refresh_token(&token))
            }
            RefreshTokenAction::RevokeRefreshToken { token } => {
                RefreshTokenEvent::Revoked(jwt.revoke_refresh_token(&token))
            }
            RefreshTokenAction::GenerateAccessToken { user_id, tenant_id } => {
                RefreshTokenEvent::AccessTokenGenerated(jwt.generate_access_token(user_id, tenant_id))
            }
            RefreshTokenAction::GenerateRefreshToken { user_id, tenant_id } => {
                RefreshTokenEvent::RefreshTokenGenerated(jwt.generate_refresh_token(user_id, tenant_id))
            }
        };
        (uc, action) = uc.resume(event);
    }
}

#[test]
fn used_refresh_token_cannot_be_used_again() {
    let mut jwt = valdraegorn::auth::jwt::JwtTokenService::new("k".to_string(), 900, 3600);
    let first = jwt.generate_refresh_token(5, 6).unwrap();
    let out = run_refresh(&mut jwt, &first).unwrap();
    assert_eq!(jwt.decode_access_token(&out.access_token), Ok((5, 6)));
    assert_eq!(run_refresh(&mut jwt, &first), Err(DomainError::Unauthorized));
}
