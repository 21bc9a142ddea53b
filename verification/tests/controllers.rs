use blog_api::controllers::posts_controller::{create, destroy, edit, index, new, show, update};

#[test]
fn each_action_answers_with_its_name() {
    assert_eq!(new(), "posts#new");
    assert_eq!(create(), "posts#create");
    assert_eq!(index(), "posts#index");
    assert_eq!(show(1), "posts#show");
    assert_eq!(edit(2), "posts#edit");
    assert_eq!(update(3), "posts#update");
    assert_eq!(destroy(), "posts#destroy");
}
