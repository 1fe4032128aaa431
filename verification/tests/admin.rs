use aiai_presale::address::Address;
use aiai_presale::error::PresaleError;
use aiai_presale::{set_paused, set_tge, AdminOnly, Presale};

fn sale(admin: Address) -> Presale {
    Presale {
        bump: 255,
        vault_bump: 254,
        mint_auth_bump: 253,
        admin,
        mint: Address::new([2; 32]),
        price_lamports_per_token: 2_000_000,
        min_total: 200_000_000,
        max_total: 2_000_000_000,
        total_raised: 400_000_000,
        total_sold: 200_000_000_000,
        supply_cap: 69_420_000_000_000,
        paused: false,
        tge_live: false,
    }
}

#[test]
fn admin_pauses_and_resumes() {
    let admin = Address::new([1; 32]);
    let mut ctx = AdminOnly { admin, presale: sale(admin) };
    assert_eq!(set_paused(&mut ctx, true), Ok(()));
    assert_eq!(ctx.presale, Presale { paused: true, ..sale(admin) });
    assert!(ctx.is_authorized());
    assert_eq!(set_paused(&mut ctx, false), Ok(()));
    assert_eq!(ctx.presale, sale(admin));
}

#[test]
fn admin_switches_the_phase() {
    let admin = Address::new([1; 32]);
    let mut ctx = AdminOnly { admin, presale: sale(admin) };
    assert_eq!(set_tge(&mut ctx, true), Ok(()));
    assert_eq!(ctx.presale, Presale { tge_live: true, ..sale(admin) });
    assert_eq!(set_tge(&mut ctx, false), Ok(()));
    assert_eq!(ctx.presale, sale(admin));
}

#[test]
fn setting_a_flag_to_its_value_changes_nothing() {
    let admin = Address::new([1; 32]);
    let mut ctx = AdminOnly { admin, presale: sale(admin) };
    let before = ctx;
    assert_eq!(set_paused(&mut ctx, false), Ok(()));
    assert_eq!(set_tge(&mut ctx, false), Ok(()));
    assert_eq!(ctx, before);
}

#[test]
fn stranger_cannot_pause() {
    let admin = Address::new([1; 32]);
    let mut stranger = [1u8; 32];
    stranger[31] = 2;
    let mut ctx = AdminOnly { admin: Address::new(stranger), presale: sale(admin) };
    let before = ctx;
    assert!(!ctx.is_authorized());
    assert_eq!(set_paused(&mut ctx, true), Err(PresaleError::Unauthorized));
    assert_eq!(ctx, before);
    assert!(!ctx.presale.paused);
}

#[test]
fn stranger_cannot_switch_the_phase() {
    let admin = Address::new([1; 32]);
    let mut ctx = AdminOnly { admin: Address::new([3; 32]), presale: sale(admin) };
    let before = ctx;
    assert_eq!(set_tge(&mut ctx, true), Err(PresaleError::Unauthorized));
    assert_eq!(ctx, before);
    assert!(!ctx.presale.tge_live);
}

#[test]
fn the_flags_are_independent() {
    let admin = Address::new([1; 32]);
    let mut ctx = AdminOnly { admin, presale: sale(admin) };
    assert_eq!(set_paused(&mut ctx, true), Ok(()));
    assert_eq!(set_tge(&mut ctx, true), Ok(()));
    assert_eq!(ctx.presale, Presale { paused: true, tge_live: true, ..sale(admin) });
}
