use subpar::base::accessor::Accessor;
use subpar::excel::ExcelConfig;
use subpar::helpers::to_sheet_name;

#[test]
fn test_ctx() {
    // Test Excel
    let excel_config = ExcelConfig {
        path: "/home/dfogelson/Downloads/Submissions_Log_2019-07.xlsx".to_string(),
    };
    let name = to_sheet_name(&excel_config.path).expect("Failed opening the excel workbook");
    assert_eq!(name, "Submissions_Log_2019-07");
    let accessor = Accessor::new_csv(&excel_config.path);
    assert_eq!(accessor.name(), "Submissions_Log_2019-07");
    println!("db submissions:\n{:#?}", excel_config);
}
