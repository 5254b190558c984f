//! The GraphQL request bodies: coupon validation, coupon redemption and the
//! catalog lookup by slug. Each body is a list holding one operation.

use vstd::prelude::*;
use vstd::string::*;

verus! {

/// The GraphQL document of the validation request.
pub const VALIDATE_REDEEM_QUERY: &'static str = "mutation validateRedeem($catalog_id: Int, $is_gift: Int, $gift_user_id: Int, $gift_email: String) {\n  hachikoValidateRedeem(catalog_id: $catalog_id, is_gift: $is_gift, gift_user_id: $gift_user_id, gift_email: $gift_email) {\n	is_valid\n	message_success\n	message_title\n	__typename\n  }\n}\n";

/// The GraphQL document of the redeem request.
pub const REDEEM_COUPON_QUERY: &'static str = "mutation redeemCoupon($catalog_id: Int, $is_gift: Int, $gift_user_id: Int, $gift_email: String, $notes: String) {\n  hachikoRedeem(catalog_id: $catalog_id, is_gift: $is_gift, gift_user_id: $gift_user_id, gift_email: $gift_email, notes: $notes, apiVersion: \"2.0.0\") {\n	coupons {\n	  id\n	  owner\n	  promo_id\n	  code\n	  title\n	  description\n	  cta\n	  cta_desktop\n	  __typename\n	}\n	reward_points\n	redeemMessage\n	__typename\n  }\n}\n";

/// The GraphQL document of the catalog lookup.
pub const CATALOG_DETAIL_QUERY: &'static str = "query CatalogDetailQuery($slug: String) {\n  tokopoints {\n    status {\n      points {\n        reward\n        __typename\n      }\n      __typename\n    }\n    __typename\n  }\n  hachikoCatalogDetail(slug: $slug, apiVersion: \"3.0.0\") {\n    id\n    title\n    expired_label\n    expired_str\n    is_disabled\n    is_disabled_button\n    disable_error_message\n    upper_text_desc\n    how_to_use\n    tnc\n    icon\n    quotaPercentage\n    is_gift\n    points_str\n    button_str\n    points_slash_str\n    discount_percentage_str\n    minimumUsageLabel\n    minimumUsage\n    product_recommendation {\n      is_show\n      param\n      __typename\n    }\n    activePeriod\n    activePeriodDate\n    globalPromoCodes {\n      title\n      code\n      dynamicInfos\n      __typename\n    }\n    actionCTA {\n      text\n      url\n      type\n      isShown\n      isDisabled\n      __typename\n    }\n    catalog_type\n    __typename\n  }\n}\n";

/// The variables of a validation or redeem operation.
pub struct RedeemCouponVariables {
    pub catalog_id: i64,
    pub is_gift: i32,
    pub gift_email: String,
    pub notes: String,
}

/// A validation or redeem operation.
pub struct RedeemCouponRequest {
    pub operation_name: String,
    pub variables: RedeemCouponVariables,
    pub query: String,
}

/// The variables of a catalog lookup.
pub struct SlugVariables {
    pub slug: String,
}

/// A catalog lookup operation.
pub struct SlugRequest {
    pub operation_name: String,
    pub variables: SlugVariables,
    pub query: String,
}

/// `r` is the operation `operation` on `catalog_id` with document `query`,
/// for the account itself (not a gift) and with no notes.
pub open spec fn is_coupon_operation(
    r: RedeemCouponRequest,
    operation: Seq<char>,
    catalog_id: i64,
    query: Seq<char>,
) -> bool {
    &&& r.operation_name@ == operation
    &&& r.variables.catalog_id == catalog_id
    &&& r.variables.is_gift == 0
    &&& r.variables.gift_email@ == Seq::<char>::empty()
    &&& r.variables.notes@ == Seq::<char>::empty()
    &&& r.query@ == query
}

fn coupon_operation(operation: &str, catalog_id: i64, query: &str) -> (r: RedeemCouponRequest)
    ensures
        is_coupon_operation(r, operation@, catalog_id, query@),
{
    RedeemCouponRequest {
        operation_name: String::from_str(operation),
        variables: RedeemCouponVariables {
            catalog_id,
            is_gift: 0,
            gift_email: String::new(),
            notes: String::new(),
        },
        query: String::from_str(query),
    }
}

/// The body that asks whether `catalog_id` can be redeemed.
pub fn validate_redeem_body(catalog_id: i64) -> (r: Vec<RedeemCouponRequest>)
    ensures
        r@.len() == 1,
        is_coupon_operation(r@[0], "validateRedeem"@, catalog_id, VALIDATE_REDEEM_QUERY@),
{
    let mut r = Vec::new();
    r.push(coupon_operation("validateRedeem", catalog_id, VALIDATE_REDEEM_QUERY));
    r
}

/// The body that redeems `catalog_id`.
pub fn redeem_coupon_body(catalog_id: i64) -> (r: Vec<RedeemCouponRequest>)
    ensures
        r@.len() == 1,
        is_coupon_operation(r@[0], "redeemCoupon"@, catalog_id, REDEEM_COUPON_QUERY@),
{
    let mut r = Vec::new();
    r.push(coupon_operation("redeemCoupon", catalog_id, REDEEM_COUPON_QUERY));
    r
}

/// The body that looks up the catalog entry of the coupon `slug`.
pub fn catalog_detail_body(slug: &str) -> (r: Vec<SlugRequest>)
    ensures
        r@.len() == 1,
        r@[0].operation_name@ == "CatalogDetailQuery"@,
        r@[0].variables.slug@ == slug@,
        r@[0].query@ == CATALOG_DETAIL_QUERY@,
{
    let mut r = Vec::new();
    r.push(
        SlugRequest {
            operation_name: String::from_str("CatalogDetailQuery"),
            variables: SlugVariables { slug: String::from_str(slug) },
            query: String::from_str(CATALOG_DETAIL_QUERY),
        },
    );
    r
}

} // verus!
