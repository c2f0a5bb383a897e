use stq_core::currency::Currency;
use stq_core::delivery::DeliveryCompany;
use stq_core::emails::{
    ApplyEmailVerificationForUser, ApplyPasswordResetForUser, Email, EmailUser,
    EmailVerificationForUser, OrderCreateForStore, OrderCreateForUser, OrderUpdateStateForUser,
    PasswordResetForUser,
};
use stq_core::language::Language;
use stq_core::moderation_status::ModerationStatus;
use stq_core::order_state::OrderState;
use stq_core::routes::{Model, Service};
use stq_core::system::SystemServiceImpl;
use stq_core::types::{CartCustomer, CurrencyId, SessionId, UserId};
use stq_core::validation::validate_phone;

fn user() -> EmailUser {
    EmailUser {
        email: String::from("a@b.c"),
        first_name: String::from("Ada"),
        last_name: String::from("B"),
    }
}

#[test]
fn currency_names_round_trip() {
    assert_eq!(Currency::from_str("rouble"), Some(Currency::Rouble));
    assert_eq!(Currency::from_str("stq"), Some(Currency::Stq));
    assert_eq!(Currency::from_str("doubloon"), None);
    assert_eq!(Currency::Euro.name(), "euro");
    assert_eq!(Currency::Euro.key(), 2);
    let all = Currency::as_vec();
    assert_eq!(all.len(), 6);
    assert_eq!(all[0].key, 1);
    assert_eq!(all[0].name, "rouble");
    assert_eq!(all[5].key, 6);
    assert_eq!(all[5].name, "stq");
}

#[test]
fn language_names_round_trip() {
    assert_eq!(Language::from_str("japanese"), Some(Language::Japanese));
    assert_eq!(Language::from_str("latin"), None);
    assert_eq!(Language::Korean.name(), "korean");
    let all = Language::as_vec();
    assert_eq!(all.len(), 9);
    assert_eq!(all[0].key, 1);
    assert_eq!(all[0].name, "english");
}

#[test]
fn moderation_statuses_parse_and_list() {
    assert_eq!(
        ModerationStatus::from_str("published"),
        Some(ModerationStatus::Published)
    );
    assert_eq!(ModerationStatus::from_str("hidden"), None);
    assert_eq!(ModerationStatus::Decline.name(), "decline");
    assert_eq!(
        ModerationStatus::as_vec(),
        vec![
            ModerationStatus::Draft,
            ModerationStatus::Moderation,
            ModerationStatus::Decline,
            ModerationStatus::Published,
        ]
    );
}

#[test]
fn order_states_parse_and_list() {
    assert_eq!(
        OrderState::from_str("Payment Awaited"),
        Some(OrderState::PaymentAwaited)
    );
    assert_eq!(OrderState::from_str("payment awaited"), None);
    assert_eq!(OrderState::InProcessing.name(), "In processing");
    let all = OrderState::as_vec();
    assert_eq!(all.len(), 11);
    assert_eq!(all[0], OrderState::New);
    assert_eq!(all[10], OrderState::Complete);
}

#[test]
fn delivery_companies_parse() {
    assert_eq!(DeliveryCompany::from_str("dhl"), Some(DeliveryCompany::DHL));
    assert_eq!(DeliveryCompany::from_str("ups"), Some(DeliveryCompany::UPS));
    assert_eq!(DeliveryCompany::from_str("fedex"), None);
    assert_eq!(DeliveryCompany::UPS.name(), "ups");
}

#[test]
fn models_map_to_urls() {
    assert_eq!(Model::Order.to_url(), "orders");
    assert_eq!(Model::Category.to_url(), "categories");
    assert_eq!(Model::from_str("base_product"), Some(Model::BaseProduct));
    assert_eq!(Model::from_str("widget"), None);
    assert_eq!(Model::JWT.name(), "jwt");
}

#[test]
fn services_parse() {
    assert_eq!(Service::from_str("warehouses"), Some(Service::Warehouses));
    assert_eq!(Service::from_str("mail"), None);
    assert_eq!(Service::Notifications.name(), "notifications");
}

#[test]
fn cart_customers_label_themselves() {
    assert_eq!(CartCustomer::User(UserId(3)).label(), "user / 3");
    assert_eq!(
        CartCustomer::Anonymous(SessionId(-2)).label(),
        "session / -2"
    );
}

#[test]
fn currency_ids_name_their_currency() {
    assert_eq!(CurrencyId(1).name(), "rouble");
    assert_eq!(CurrencyId(6).name(), "stq");
    assert_eq!(CurrencyId(0).name(), "unknown");
    assert_eq!(CurrencyId(7).name(), "unknown");
}

#[test]
fn healthcheck_answers_ok() {
    assert_eq!(SystemServiceImpl.healthcheck_body(), "\"Ok\"");
}

#[test]
fn phone_validation_accepts_only_digit_strings() {
    assert!(validate_phone("1234567").is_ok());
    assert!(validate_phone("+79161234567").is_ok());
    assert!(validate_phone("123456").is_err());
    assert!(validate_phone("+12a4567").is_err());
    assert!(validate_phone("").is_err());
    match validate_phone("nope") {
        Err(e) => {
            assert_eq!(e.code, "phone");
            assert_eq!(e.message.unwrap(), "Incorrect phone format");
        }
        Ok(()) => panic!("expected a rejection"),
    }
}

#[test]
fn order_update_mail_renders_for_user() {
    let mail = OrderUpdateStateForUser {
        user: user(),
        order_slug: String::from("42"),
        order_state: String::from("Paid"),
        cluster_url: String::from("https://s.example"),
    }
    .into_send_mail();
    assert_eq!(mail.to, "a@b.c");
    assert_eq!(mail.subject, "The order 42 status");
    assert_eq!(
        mail.text,
        "Orders' 42 state is 'Paid' now. You can view current info about your order on <a href=\"https://s.example/profile/orders/42\">this page</a>."
    );
}

#[test]
fn order_create_mails_render() {
    let mail = OrderCreateForUser {
        user: user(),
        order_slug: String::from("7"),
        cluster_url: String::from("https://s.example"),
    }
    .into_send_mail();
    assert_eq!(mail.subject, "New order 7.");
    assert_eq!(
        mail.text,
        "Order 7 was created. You can view current info about your order on <a href=\"https://s.example/profile/orders/7\">this page</a>."
    );

    let mail = OrderCreateForStore {
        store_email: String::from("shop@b.c"),
        order_slug: String::from("7"),
        cluster_url: String::from("https://s.example"),
        store_id: String::from("33"),
    }
    .into_send_mail();
    assert_eq!(mail.to, "shop@b.c");
    assert_eq!(
        mail.text,
        "Order 7 was created. You can view current order info on <a href=\"https://s.example/manage/store/33/orders/7\">this page</a>."
    );
}

#[test]
fn account_mails_render() {
    let mail = EmailVerificationForUser {
        user: user(),
        verify_email_path: String::from("https://s.example/verify"),
        token: String::from("tok"),
    }
    .into_send_mail();
    assert_eq!(mail.subject, "Verify your account on Storiqa");
    assert_eq!(mail.text, "https://s.example/verify/tok");

    let mail = PasswordResetForUser {
        user: user(),
        reset_password_path: String::from("https://s.example/reset"),
        token: String::from("tok2"),
    }
    .into_send_mail();
    assert_eq!(mail.subject, "Password reset");
    assert_eq!(mail.text, "https://s.example/reset/tok2");

    let mail = ApplyPasswordResetForUser { user: user() }.into_send_mail();
    assert_eq!(mail.subject, "Successful password reset");
    assert_eq!(
        mail.text,
        "Password for linked account has been successfully reset."
    );

    let mail = ApplyEmailVerificationForUser { user: user() }.into_send_mail();
    assert_eq!(mail.subject, "Successful registration");
    assert_eq!(mail.text, "Email for linked account has been verified.");
}
